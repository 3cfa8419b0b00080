//! Models and providers group: the declarative provider catalog, how stored
//! connections project onto it, connect-field resolution, the ChatGPT usage
//! target, model-handle selection and the answers of every command.
//!
//! Connections, model handles and settings belong to the provider runtime;
//! the host hands in what it observed of them (connection snapshots, parse
//! verdicts, outcomes), and this module decides what is done and answered.

use crate::schedules::{filter_matches, ov};
use crate::settings::opt_view;
use crate::text::{chars_of, copy_string, same_text, string_from, trim_chars, trimmed};
use crate::text_map::TextMap;
use vstd::prelude::*;

verus! {

// ── Catalog ─────────────────────────────────────────────────────────────────

/// One declarative connectable provider row.
#[derive(Debug)]
pub struct CatalogRow {
    pub id: String,
    pub display_name: String,
    pub description: String,
    pub provider_type: String,
    pub requires_api_key: bool,
}

/// Value of a catalog row.
pub struct Row {
    pub id: Seq<char>,
    pub display_name: Seq<char>,
    pub description: Seq<char>,
    pub provider_type: Seq<char>,
    pub requires_api_key: bool,
}

pub open spec fn row(r: CatalogRow) -> Row {
    Row {
        id: r.id@,
        display_name: r.display_name@,
        description: r.description@,
        provider_type: r.provider_type@,
        requires_api_key: r.requires_api_key,
    }
}

pub open spec fn mk_row(id: &str, display_name: &str, description: &str, provider_type: &str, key: bool) -> Row {
    Row {
        id: id@,
        display_name: display_name@,
        description: description@,
        provider_type: provider_type@,
        requires_api_key: key,
    }
}

/// The eight connectable providers, in catalog order.
pub open spec fn catalog() -> Seq<Row> {
    seq![
        mk_row("openai", "OpenAI", "Connect an OpenAI API key", "openai", true),
        mk_row("anthropic", "Anthropic API", "Connect an Anthropic API key", "anthropic", true),
        mk_row(
            "google-vertex",
            "Google Vertex AI",
            "Connect a Google Vertex AI API key",
            "google_vertex",
            true,
        ),
        mk_row(
            "openai-compatible",
            "OpenAI-compatible API",
            "Connect an OpenAI-compatible Chat Completions endpoint",
            "openai-compatible",
            false,
        ),
        mk_row(
            "ollama",
            "Ollama (local)",
            "Connect Ollama at http://localhost:11434/v1 or a remote URL",
            "ollama",
            false,
        ),
        mk_row(
            "lmstudio",
            "LM Studio (local)",
            "Connect LM Studio at http://127.0.0.1:1234/v1 or a remote URL",
            "lmstudio",
            false,
        ),
        mk_row(
            "llama-cpp",
            "llama.cpp (local)",
            "Connect llama.cpp at http://localhost:8080/v1 or a remote URL",
            "llama_cpp",
            false,
        ),
        mk_row("bedrock", "Amazon Bedrock", "Connect to Anthropic models on Amazon Bedrock", "amazon-bedrock", true),
    ]
}

fn catalog_row(id: &str, display_name: &str, description: &str, provider_type: &str, key: bool) -> (r:
    CatalogRow)
    ensures
        row(r) == mk_row(id, display_name, description, provider_type, key),
{
    CatalogRow {
        id: copy_string(id),
        display_name: copy_string(display_name),
        description: copy_string(description),
        provider_type: copy_string(provider_type),
        requires_api_key: key,
    }
}

/// The declarative catalog rows.
pub fn declarative_rows() -> (rows: Vec<CatalogRow>)
    ensures
        rows@.len() == catalog().len(),
        forall|i: int| 0 <= i < rows@.len() ==> row(#[trigger] rows@[i]) == catalog()[i],
{
    let mut rows: Vec<CatalogRow> = Vec::new();
    rows.push(catalog_row("openai", "OpenAI", "Connect an OpenAI API key", "openai", true));
    rows.push(catalog_row("anthropic", "Anthropic API", "Connect an Anthropic API key", "anthropic", true));
    rows.push(
        catalog_row(
            "google-vertex",
            "Google Vertex AI",
            "Connect a Google Vertex AI API key",
            "google_vertex",
            true,
        ),
    );
    rows.push(
        catalog_row(
            "openai-compatible",
            "OpenAI-compatible API",
            "Connect an OpenAI-compatible Chat Completions endpoint",
            "openai-compatible",
            false,
        ),
    );
    rows.push(
        catalog_row(
            "ollama",
            "Ollama (local)",
            "Connect Ollama at http://localhost:11434/v1 or a remote URL",
            "ollama",
            false,
        ),
    );
    rows.push(
        catalog_row(
            "lmstudio",
            "LM Studio (local)",
            "Connect LM Studio at http://127.0.0.1:1234/v1 or a remote URL",
            "lmstudio",
            false,
        ),
    );
    rows.push(
        catalog_row(
            "llama-cpp",
            "llama.cpp (local)",
            "Connect llama.cpp at http://localhost:8080/v1 or a remote URL",
            "llama_cpp",
            false,
        ),
    );
    rows.push(
        catalog_row("bedrock", "Amazon Bedrock", "Connect to Anthropic models on Amazon Bedrock", "amazon-bedrock", true),
    );
    rows
}

/// Stored record identifier of a provider row.
pub open spec fn record_id_spec(id: Seq<char>) -> Seq<char> {
    "local-provider-"@ + id
}

/// Executable [`record_id_spec`].
pub fn record_id(id: &str) -> (r: String)
    ensures
        r@ == record_id_spec(id@),
{
    let mut r = copy_string("local-provider-");
    r.append(id);
    r
}

/// Position of the first row with `id`.
pub fn find_row(rows: &Vec<CatalogRow>, id: &str) -> (r: Option<usize>)
    ensures
        match r {
            Some(p) => p < rows@.len() && rows@[p as int].id@ == id@ && forall|k: int|
                0 <= k < p ==> #[trigger] rows@[k].id@ != id@,
            None => forall|k: int| 0 <= k < rows@.len() ==> #[trigger] rows@[k].id@ != id@,
        },
{
    let mut i: usize = 0;
    while i < rows.len()
        invariant
            i <= rows@.len(),
            forall|k: int| 0 <= k < i ==> #[trigger] rows@[k].id@ != id@,
        decreases rows@.len() - i,
    {
        if same_text(rows[i].id.as_str(), id) {
            return Some(i);
        }
        i = i + 1;
    }
    None
}

// ── Connections ─────────────────────────────────────────────────────────────

/// What the catalog reads of one stored provider connection.
#[derive(Debug)]
pub struct ConnectionSnapshot {
    pub id: String,
    pub provider_name: String,
    pub provider_type: String,
    pub is_connected: bool,
}

/// Positions `< n` of the connections stored under provider name `name`.
pub open spec fn named_positions(s: Seq<ConnectionSnapshot>, name: Seq<char>, n: int) -> Seq<usize>
    decreases n,
{
    if n <= 0 {
        Seq::empty()
    } else {
        let p = named_positions(s, name, n - 1);
        if s[n - 1].provider_name@ == name {
            p.push((n - 1) as usize)
        } else {
            p
        }
    }
}

/// Whether a provider type is served by some catalog row.
pub open spec fn catalogued_type(rows: Seq<Row>, provider_type: Seq<char>) -> bool {
    exists|i: int| 0 <= i < rows.len() && #[trigger] rows[i].provider_type == provider_type
}

/// Positions `< n` of the connections whose type no row serves.
pub open spec fn orphan_positions(s: Seq<ConnectionSnapshot>, rows: Seq<Row>, n: int) -> Seq<usize>
    decreases n,
{
    if n <= 0 {
        Seq::empty()
    } else {
        let p = orphan_positions(s, rows, n - 1);
        if !catalogued_type(rows, s[n - 1].provider_type@) {
            p.push((n - 1) as usize)
        } else {
            p
        }
    }
}

/// One provider entry: a catalog row (`row` is its position) or a stored
/// connection no row serves; `connected` are the positions of the
/// connections it represents, in stored order.
#[derive(Debug)]
pub struct ProviderEntry {
    pub id: String,
    pub display_name: String,
    pub description: String,
    pub provider_type: String,
    pub provider_name: String,
    pub provider_names: Vec<String>,
    pub requires_api_key: bool,
    pub row: Option<usize>,
    pub connected: Vec<usize>,
}

/// The entry of catalog row `i` over the stored connections.
pub open spec fn row_entry(e: ProviderEntry, r: Row, i: int, s: Seq<ConnectionSnapshot>) -> bool {
    &&& e.id@ == r.id
    &&& e.display_name@ == r.display_name
    &&& e.description@ == r.description
    &&& e.provider_type@ == r.provider_type
    &&& e.provider_name@ == r.id
    &&& e.provider_names@.len() == 1 && e.provider_names@[0]@ == r.id
    &&& e.requires_api_key == r.requires_api_key
    &&& e.row == Some(i as usize)
    &&& e.connected@ == named_positions(s, r.id, s.len() as int)
}

/// The entry of a stored connection that no row serves.
pub open spec fn orphan_entry(e: ProviderEntry, c: ConnectionSnapshot, p: usize) -> bool {
    &&& e.id@ == c.provider_type@
    &&& e.display_name@ == c.provider_type@
    &&& e.description@ == Seq::<char>::empty()
    &&& e.provider_type@ == c.provider_type@
    &&& e.provider_name@ == c.provider_name@
    &&& e.provider_names@.len() == 1 && e.provider_names@[0]@ == c.provider_name@
    &&& e.requires_api_key
    &&& e.row is None
    &&& e.connected@ == seq![p]
}

fn named(snapshots: &Vec<ConnectionSnapshot>, name: &str) -> (r: Vec<usize>)
    ensures
        r@ == named_positions(snapshots@, name@, snapshots@.len() as int),
{
    let mut r: Vec<usize> = Vec::new();
    let mut i: usize = 0;
    while i < snapshots.len()
        invariant
            i <= snapshots@.len(),
            r@ == named_positions(snapshots@, name@, i as int),
        decreases snapshots@.len() - i,
    {
        if same_text(snapshots[i].provider_name.as_str(), name) {
            r.push(i);
        }
        i = i + 1;
    }
    r
}

fn type_catalogued(rows: &Vec<CatalogRow>, provider_type: &str) -> (b: bool)
    ensures
        b == catalogued_type(rows@.map_values(|r: CatalogRow| row(r)), provider_type@),
{
    let ghost rs = rows@.map_values(|r: CatalogRow| row(r));
    let mut i: usize = 0;
    while i < rows.len()
        invariant
            i <= rows@.len(),
            rs == rows@.map_values(|r: CatalogRow| row(r)),
            forall|k: int| 0 <= k < i ==> #[trigger] rs[k].provider_type != provider_type@,
        decreases rows@.len() - i,
    {
        if same_text(rows[i].provider_type.as_str(), provider_type) {
            assert(rs[i as int].provider_type == provider_type@);
            return true;
        }
        i = i + 1;
    }
    false
}

/// Catalog rows merged with the stored connections: one entry per row, in
/// catalog order, then one per connection whose type no row serves, in
/// stored order.
pub fn provider_entries(snapshots: &Vec<ConnectionSnapshot>) -> (entries: Vec<ProviderEntry>)
    ensures
        ({
            let orphans = orphan_positions(snapshots@, catalog(), snapshots@.len() as int);
            &&& entries@.len() == catalog().len() + orphans.len()
            &&& forall|i: int|
                0 <= i < catalog().len() ==> row_entry(#[trigger] entries@[i], catalog()[i], i, snapshots@)
            &&& forall|j: int|
                0 <= j < orphans.len() ==> orphan_entry(
                    #[trigger] entries@[catalog().len() + j],
                    snapshots@[orphans[j] as int],
                    orphans[j],
                )
        }),
{
    let rows = declarative_rows();
    let ghost rs = rows@.map_values(|r: CatalogRow| row(r));
    assert(rs =~= catalog());
    let mut entries: Vec<ProviderEntry> = Vec::new();
    let mut i: usize = 0;
    while i < rows.len()
        invariant
            i <= rows@.len(),
            rows@.len() == catalog().len(),
            forall|k: int| 0 <= k < rows@.len() ==> row(#[trigger] rows@[k]) == catalog()[k],
            entries@.len() == i,
            forall|k: int| 0 <= k < i ==> row_entry(#[trigger] entries@[k], catalog()[k], k, snapshots@),
        decreases rows@.len() - i,
    {
        let r = &rows[i];
        let mut names: Vec<String> = Vec::new();
        names.push(copy_string(r.id.as_str()));
        let e = ProviderEntry {
            id: copy_string(r.id.as_str()),
            display_name: copy_string(r.display_name.as_str()),
            description: copy_string(r.description.as_str()),
            provider_type: copy_string(r.provider_type.as_str()),
            provider_name: copy_string(r.id.as_str()),
            provider_names: names,
            requires_api_key: r.requires_api_key,
            row: Some(i),
            connected: named(snapshots, r.id.as_str()),
        };
        assert(row(rows@[i as int]) == catalog()[i as int]);
        entries.push(e);
        i = i + 1;
    }
    let ghost base = entries@;
    let mut j: usize = 0;
    while j < snapshots.len()
        invariant
            j <= snapshots@.len(),
            rs == catalog(),
            rs == rows@.map_values(|r: CatalogRow| row(r)),
            entries@.len() == catalog().len() + orphan_positions(snapshots@, catalog(), j as int).len(),
            forall|k: int| 0 <= k < catalog().len() ==> #[trigger] entries@[k] == base[k],
            forall|k: int| 0 <= k < catalog().len() ==> row_entry(#[trigger] base[k], catalog()[k], k, snapshots@),
            forall|m: int|
                0 <= m < orphan_positions(snapshots@, catalog(), j as int).len() ==> orphan_entry(
                    #[trigger] entries@[catalog().len() + m],
                    snapshots@[orphan_positions(snapshots@, catalog(), j as int)[m] as int],
                    orphan_positions(snapshots@, catalog(), j as int)[m],
                ),
        decreases snapshots@.len() - j,
    {
        let c = &snapshots[j];
        if !type_catalogued(&rows, c.provider_type.as_str()) {
            let mut names: Vec<String> = Vec::new();
            names.push(copy_string(c.provider_name.as_str()));
            let mut connected: Vec<usize> = Vec::new();
            connected.push(j);
            let e = ProviderEntry {
                id: copy_string(c.provider_type.as_str()),
                display_name: copy_string(c.provider_type.as_str()),
                description: String::new(),
                provider_type: copy_string(c.provider_type.as_str()),
                provider_name: copy_string(c.provider_name.as_str()),
                provider_names: names,
                requires_api_key: true,
                row: None,
                connected,
            };
            assert(connected@ =~= seq![j]);
            entries.push(e);
        }
        j = j + 1;
    }
    entries
}

// ── Connect ─────────────────────────────────────────────────────────────────

/// One declared connection field.
#[derive(Debug)]
pub struct FieldSpec {
    pub key: String,
    pub label: String,
    pub required: bool,
}

/// One declared auth method and its fields.
#[derive(Debug)]
pub struct AuthMethodSpec {
    pub id: String,
    pub fields: Vec<FieldSpec>,
}

/// A supplied field's value: present and non-blank, trimmed.
pub open spec fn field_value_spec(fields: TextMap, key: Seq<char>) -> Option<Seq<char>> {
    match fields.get_spec(key) {
        Some(v) => if trimmed(v).len() > 0 {
            Some(trimmed(v))
        } else {
            None
        },
        None => None,
    }
}

/// Executable [`field_value_spec`].
pub fn field_value(fields: &TextMap, key: &str) -> (r: Option<String>)
    ensures
        ov(r) == field_value_spec(*fields, key@),
{
    match fields.get(key) {
        Some(v) => {
            let t = trim_chars(&chars_of(v.as_str()));
            if t.len() > 0 {
                Some(string_from(&t))
            } else {
                None
            }
        },
        None => None,
    }
}

fn missing_field(declared: &Vec<FieldSpec>, fields: &TextMap) -> (r: Option<usize>)
    ensures
        match r {
            Some(i) => i < declared@.len() && declared@[i as int].required && field_value_spec(
                *fields,
                declared@[i as int].key@,
            ) is None && forall|k: int|
                0 <= k < i ==> !(#[trigger] declared@[k].required && field_value_spec(
                    *fields,
                    declared@[k].key@,
                ) is None),
            None => forall|k: int|
                0 <= k < declared@.len() ==> !(#[trigger] declared@[k].required && field_value_spec(
                    *fields,
                    declared@[k].key@,
                ) is None),
        },
{
    let mut i: usize = 0;
    while i < declared.len()
        invariant
            i <= declared@.len(),
            forall|k: int|
                0 <= k < i ==> !(#[trigger] declared@[k].required && field_value_spec(
                    *fields,
                    declared@[k].key@,
                ) is None),
        decreases declared@.len() - i,
    {
        if declared[i].required && field_value(fields, declared[i].key.as_str()).is_none() {
            return Some(i);
        }
        i = i + 1;
    }
    None
}

/// How a resolved connect authenticates.
#[derive(Debug)]
pub enum ResolvedAuth {
    /// An API key (`not-needed` for keyless local servers).
    ApiKey(String),
    /// The AWS profile on the host.
    Profile,
}

/// Detail of a missing declared field.
pub open spec fn missing_text(label: Seq<char>) -> Seq<char> {
    "Missing "@ + label + "."@
}

fn missing(label: &str) -> (r: String)
    ensures
        r@ == missing_text(label@),
{
    let mut r = copy_string("Missing ");
    r.append(label);
    r.append(".");
    r
}

/// Whether every required declared field has a value.
pub open spec fn none_missing(declared: Seq<FieldSpec>, fields: TextMap) -> bool {
    forall|k: int|
        0 <= k < declared.len() ==> !(#[trigger] declared[k].required && field_value_spec(
            fields,
            declared[k].key@,
        ) is None)
}

/// Whether `i` is the first required declared field without a value.
pub open spec fn first_missing_at(declared: Seq<FieldSpec>, fields: TextMap, i: int) -> bool {
    &&& 0 <= i < declared.len()
    &&& declared[i].required
    &&& field_value_spec(fields, declared[i].key@) is None
    &&& none_missing(declared.subrange(0, i), fields)
}

/// The key of a resolved auth, if it has one.
pub open spec fn key_of(a: ResolvedAuth) -> Option<Seq<char>> {
    match a {
        ResolvedAuth::ApiKey(k) => Some(k@),
        ResolvedAuth::Profile => None,
    }
}

/// The secret check that follows resolution: an API key the secret store
/// refuses (`key_accepted` false, its verdict on the resolved key) answers
/// "Provider API key rejected."; a profile carries no key, and an accepted
/// key stands as resolved.
pub fn accept_secret(auth: ResolvedAuth, key_accepted: bool) -> (r: Result<ResolvedAuth, String>)
    ensures
        (auth is ApiKey && !key_accepted) ==> (r matches Err(e) && e@ == "Provider API key rejected."@),
        (auth is Profile || key_accepted) ==> r == Ok::<ResolvedAuth, String>(auth),
{
    match auth {
        ResolvedAuth::ApiKey(k) => if key_accepted {
            Ok(ResolvedAuth::ApiKey(k))
        } else {
            Err(copy_string("Provider API key rejected."))
        },
        ResolvedAuth::Profile => Ok(ResolvedAuth::Profile),
    }
}

/// Resolves a keyed (non-Bedrock) connect: no auth method may be named,
/// every required declared field must have a value, and the key is the
/// `apiKey` field, required where the row says so, else `not-needed`.
pub fn resolve_key_auth(
    r: &CatalogRow,
    auth_method_id: &Option<String>,
    declared: &Vec<FieldSpec>,
    fields: &TextMap,
) -> (res: Result<ResolvedAuth, String>)
    ensures
        auth_method_id is Some ==> (res matches Err(e) && e@ == r.display_name@
            + " does not use auth methods."@),
        auth_method_id is None ==> match res {
            Err(e) => (exists|i: int|
                first_missing_at(declared@, *fields, i) && e@ == missing_text(
                    (#[trigger] declared@[i]).label@,
                )) || (none_missing(declared@, *fields) && field_value_spec(*fields, "apiKey"@) is None
                && r.requires_api_key && e@ == "Missing "@ + r.display_name@ + " API key."@),
            Ok(a) => none_missing(declared@, *fields) && key_of(a) == match field_value_spec(
                *fields,
                "apiKey"@,
            ) {
                Some(v) => Some(v),
                None => Some("not-needed"@),
            } && (field_value_spec(*fields, "apiKey"@) is None ==> !r.requires_api_key),
        },
        (auth_method_id is None && none_missing(declared@, *fields) && (field_value_spec(
            *fields,
            "apiKey"@,
        ) is Some || !r.requires_api_key)) ==> res is Ok,
{
    if auth_method_id.is_some() {
        let mut e = copy_string(r.display_name.as_str());
        e.append(" does not use auth methods.");
        return Err(e);
    }
    match missing_field(declared, fields) {
        Some(i) => {
            proof {
                assert(first_missing_at(declared@, *fields, i as int));
            }
            return Err(missing(declared[i].label.as_str()));
        },
        None => {},
    }
    match field_value(fields, "apiKey") {
        Some(v) => Ok(ResolvedAuth::ApiKey(v)),
        None => {
            if r.requires_api_key {
                let mut e = copy_string("Missing ");
                e.append(r.display_name.as_str());
                e.append(" API key.");
                Err(e)
            } else {
                Ok(ResolvedAuth::ApiKey(copy_string("not-needed")))
            }
        },
    }
}

/// Resolves a Bedrock connect: an auth method must be named and declared,
/// its required fields supplied; `profile` needs nothing more, any other
/// method the `apiKey` field.
pub fn resolve_bedrock_auth(auth_method_id: &Option<String>, methods: &Vec<AuthMethodSpec>, fields: &TextMap)
    -> (res: Result<ResolvedAuth, String>)
    ensures
        auth_method_id is None ==> (res matches Err(e) && e@
            == "Select an auth method for Amazon Bedrock."@),
        (auth_method_id matches Some(m) && forall|k: int|
            0 <= k < methods@.len() ==> #[trigger] methods@[k].id@ != m@) ==> (res matches Err(e) && e@
            == "Unknown auth method \""@ + auth_method_id->0@ + "\" for Amazon Bedrock."@),
        (auth_method_id matches Some(m) && exists|k: int|
            0 <= k < methods@.len() && #[trigger] methods@[k].id@ == m@ && (forall|j: int|
                0 <= j < k ==> methods@[j].id@ != m@) && none_missing(methods@[k].fields@, *fields) && (
            m@ == "profile"@ || field_value_spec(*fields, "apiKey"@) is Some)) ==> res is Ok,
        res matches Ok(a) ==> (auth_method_id is Some && (exists|k: int|
            0 <= k < methods@.len() && #[trigger] methods@[k].id@ == auth_method_id->0@
                && none_missing(methods@[k].fields@, *fields)) && key_of(a) == if auth_method_id->0@
            == "profile"@ {
            None
        } else {
            field_value_spec(*fields, "apiKey"@)
        }),
{
    let m = match auth_method_id {
        Some(m) => m,
        None => return Err(copy_string("Select an auth method for Amazon Bedrock.")),
    };
    let p = match find_method(methods, m.as_str()) {
        Some(p) => p,
        None => {
            let mut e = copy_string("Unknown auth method \"");
            e.append(m.as_str());
            e.append("\" for Amazon Bedrock.");
            return Err(e);
        },
    };
    assert(methods@[p as int].id@ == m@);
    match missing_field(&methods[p].fields, fields) {
        Some(k) => return Err(missing(methods[p].fields[k].label.as_str())),
        None => {},
    }
    if same_text(m.as_str(), "profile") {
        Ok(ResolvedAuth::Profile)
    } else {
        match field_value(fields, "apiKey") {
            Some(v) => Ok(ResolvedAuth::ApiKey(v)),
            None => Err(copy_string("Missing AWS Secret Access Key.")),
        }
    }
}

fn find_method(methods: &Vec<AuthMethodSpec>, id: &str) -> (r: Option<usize>)
    ensures
        match r {
            Some(p) => p < methods@.len() && methods@[p as int].id@ == id@ && forall|k: int|
                0 <= k < p ==> #[trigger] methods@[k].id@ != id@,
            None => forall|k: int| 0 <= k < methods@.len() ==> #[trigger] methods@[k].id@ != id@,
        },
{
    let mut i: usize = 0;
    while i < methods.len()
        invariant
            i <= methods@.len(),
            forall|k: int| 0 <= k < i ==> #[trigger] methods@[k].id@ != id@,
        decreases methods@.len() - i,
    {
        if same_text(methods[i].id.as_str(), id) {
            return Some(i);
        }
        i = i + 1;
    }
    None
}

/// Detail of a connect naming no catalog row.
pub open spec fn unknown_provider_text(id: Seq<char>) -> Seq<char> {
    "Unknown provider: "@ + id
}

/// Executable [`unknown_provider_text`].
pub fn unknown_provider(id: &str) -> (r: String)
    ensures
        r@ == unknown_provider_text(id@),
{
    let mut r = copy_string("Unknown provider: ");
    r.append(id);
    r
}

// ── ChatGPT usage ───────────────────────────────────────────────────────────

/// Whether a stored connection serves a usage read that names `requested`
/// (or none): a connected `chatgpt_oauth` connection of that name, or, when
/// none is named, the connected default alias.
pub open spec fn serves_usage(s: ConnectionSnapshot, requested: Option<Seq<char>>) -> bool {
    (s.provider_type@ == "chatgpt_oauth"@ && s.is_connected && filter_matches(
        requested,
        Some(s.provider_name@),
    )) || (s.provider_name@ == "chatgpt-plus-pro"@ && s.is_connected && requested is None)
}

/// The name of the first stored connection serving a usage read.
pub fn connected_chatgpt(snapshots: &Vec<ConnectionSnapshot>, requested: Option<&str>) -> (r: Option<String>)
    ensures
        match r {
            Some(n) => exists|p: int|
                0 <= p < snapshots@.len() && serves_usage(#[trigger] snapshots@[p], opt_view(requested))
                    && n@ == snapshots@[p].provider_name@ && forall|k: int|
                    0 <= k < p ==> !serves_usage(#[trigger] snapshots@[k], opt_view(requested)),
            None => forall|k: int|
                0 <= k < snapshots@.len() ==> !serves_usage(#[trigger] snapshots@[k], opt_view(requested)),
        },
{
    let mut i: usize = 0;
    while i < snapshots.len()
        invariant
            i <= snapshots@.len(),
            forall|k: int| 0 <= k < i ==> !serves_usage(#[trigger] snapshots@[k], opt_view(requested)),
        decreases snapshots@.len() - i,
    {
        let s = &snapshots[i];
        let oauth = same_text(s.provider_type.as_str(), "chatgpt_oauth") && s.is_connected && matches_name(
            requested,
            s.provider_name.as_str(),
        );
        let alias = same_text(s.provider_name.as_str(), "chatgpt-plus-pro") && s.is_connected
            && requested.is_none();
        if oauth || alias {
            return Some(copy_string(s.provider_name.as_str()));
        }
        i = i + 1;
    }
    None
}

fn matches_name(requested: Option<&str>, name: &str) -> (b: bool)
    ensures
        b == filter_matches(opt_view(requested), Some(name@)),
{
    match requested {
        None => true,
        Some(w) => same_text(name, w),
    }
}

/// Usage source selector.
#[derive(Clone, Copy, Debug, PartialEq, Eq)]
pub enum UsageTarget {
    Local,
    Api,
}

/// Provider store selector.
#[derive(Clone, Copy, Debug, PartialEq, Eq)]
pub enum StorageTarget {
    Local,
}

/// A usage read failure.
#[derive(Debug)]
pub struct UsageError {
    pub code: String,
    pub message: String,
    pub retry_after_ms: Option<u64>,
}

/// The read handed to the usage source: the serving connection's name and
/// whether a refresh is forced.
#[derive(Debug)]
pub struct UsageRead {
    pub provider_name: String,
    pub force_refresh: bool,
}

/// Which read a usage command makes: the API target is refused as
/// unsupported; without a serving connection the read is refused as not
/// connected; otherwise the serving connection is read, with a refresh forced
/// only where the command asks for one.
pub fn usage_source(command: &ChatgptUsageReadCommand, serving: Option<String>) -> (r: Result<
    UsageRead,
    UsageError,
>)
    ensures
        command.target == UsageTarget::Api ==> (r matches Err(e) && e.code@ == "unsupported_target"@
            && e.message@ == "Only the local provider store serves usage."@ && e.retry_after_ms is None),
        command.target == UsageTarget::Local ==> match serving {
            Some(n) => r matches Ok(read) && read.provider_name@ == n@ && read.force_refresh == (
            command.force_refresh == Some(true)),
            None => r matches Err(e) && e.code@ == "not_connected"@ && e.message@
                == "Connect a ChatGPT provider to read usage."@ && e.retry_after_ms is None,
        },
{
    match command.target {
        UsageTarget::Api => Err(
            UsageError {
                code: copy_string("unsupported_target"),
                message: copy_string("Only the local provider store serves usage."),
                retry_after_ms: None,
            },
        ),
        UsageTarget::Local => match serving {
            Some(n) => {
                let force_refresh = match command.force_refresh {
                    Some(f) => f,
                    None => false,
                };
                Ok(UsageRead { provider_name: n, force_refresh })
            },
            None => Err(
                UsageError {
                    code: copy_string("not_connected"),
                    message: copy_string("Connect a ChatGPT provider to read usage."),
                    retry_after_ms: None,
                },
            ),
        },
    }
}

// ── Model selection ─────────────────────────────────────────────────────────

/// Runtime scope addressed by scoped model commands.
#[derive(Debug)]
pub struct RuntimeScopeRef {
    pub agent_id: String,
    pub conversation_id: String,
    pub acting_user_id: Option<String>,
}

/// Key of a runtime scope's stored model: `agent/conversation`.
pub open spec fn model_scope_key_spec(agent_id: Seq<char>, conversation_id: Seq<char>) -> Seq<char> {
    agent_id + seq!['/'] + conversation_id
}

/// Executable [`model_scope_key_spec`].
pub fn model_scope_key(runtime: &RuntimeScopeRef) -> (r: String)
    ensures
        r@ == model_scope_key_spec(runtime.agent_id@, runtime.conversation_id@),
{
    let mut r = copy_string(runtime.agent_id.as_str());
    r.append("/");
    proof {
        reveal_strlit("/");
    }
    r.append(runtime.conversation_id.as_str());
    r
}

/// Level a model update applies to: the agent for the default
/// conversation, else the conversation.
pub open spec fn applied_to_spec(conversation_id: Seq<char>) -> Seq<char> {
    if conversation_id == "default"@ {
        "agent"@
    } else {
        "conversation"@
    }
}

/// Executable [`applied_to_spec`].
pub fn applied_to(runtime: &RuntimeScopeRef) -> (r: String)
    ensures
        r@ == applied_to_spec(runtime.conversation_id@),
{
    if same_text(runtime.conversation_id.as_str(), "default") {
        copy_string("agent")
    } else {
        copy_string("conversation")
    }
}

/// `update_model` body.
#[derive(Debug)]
pub struct UpdateModelPayload {
    pub model_id: Option<String>,
    pub model_handle: Option<String>,
    pub reasoning_effort: Option<String>,
}

/// The handle an update selects: a non-empty `model_handle` that parses,
/// else a non-empty `model_id` that parses. `handle_parsed` and
/// `id_parsed` are the runtime's canonical readings of those two fields.
pub open spec fn selected_handle(p: UpdateModelPayload, handle_parsed: Option<Seq<char>>, id_parsed: Option<Seq<char>>) -> Option<
    Seq<char>,
> {
    if (p.model_handle matches Some(h) && h@.len() > 0) && handle_parsed is Some {
        handle_parsed
    } else if (p.model_id matches Some(m) && m@.len() > 0) && id_parsed is Some {
        id_parsed
    } else {
        None
    }
}

/// Executable [`selected_handle`].
pub fn resolve_handle(payload: &UpdateModelPayload, handle_parsed: Option<String>, id_parsed: Option<String>) -> (r:
    Option<String>)
    ensures
        ov(r) == selected_handle(*payload, ov(handle_parsed), ov(id_parsed)),
{
    let handle_given = match &payload.model_handle {
        Some(h) => h.as_str().unicode_len() > 0,
        None => false,
    };
    if handle_given && handle_parsed.is_some() {
        return handle_parsed;
    }
    let id_given = match &payload.model_id {
        Some(m) => m.as_str().unicode_len() > 0,
        None => false,
    };
    if id_given && id_parsed.is_some() {
        return id_parsed;
    }
    None
}

/// Provider and model halves of a stored handle, split at its first `/`.
pub open spec fn handle_hints_spec(handle: Option<Seq<char>>) -> (Option<Seq<char>>, Option<Seq<char>>) {
    match handle {
        None => (None, None),
        Some(h) => {
            let k = crate::memory_paths::next_index_of(h, '/', 0);
            if k < h.len() {
                (Some(h.subrange(0, k)), Some(h.subrange(k + 1, h.len() as int)))
            } else {
                (None, None)
            }
        },
    }
}

/// Executable [`handle_hints_spec`].
pub fn handle_hints(handle: Option<&str>) -> (r: (Option<String>, Option<String>))
    ensures
        (ov(r.0), ov(r.1)) == handle_hints_spec(opt_view(handle)),
{
    match handle {
        None => (None, None),
        Some(h) => {
            let v = chars_of(h);
            let k = crate::memory_paths::find_char_from(&v, '/', 0);
            if k < v.len() {
                (
                    Some(string_from(&crate::text::slice_chars(&v, 0, k))),
                    Some(string_from(&crate::text::slice_chars(&v, k + 1, v.len()))),
                )
            } else {
                (None, None)
            }
        },
    }
}

/// Provider type of the latest of the first `n` connections named `name`.
pub open spec fn alias_of(s: Seq<ConnectionSnapshot>, name: Seq<char>, n: int) -> Option<Seq<char>>
    decreases n,
{
    if n <= 0 {
        None
    } else if s[n - 1].provider_name@ == name {
        Some(s[n - 1].provider_type@)
    } else {
        alias_of(s, name, n - 1)
    }
}

/// Connected alias to provider type, the latest connection winning.
pub fn byok_provider_aliases(snapshots: &Vec<ConnectionSnapshot>) -> (m: TextMap)
    ensures
        m.wf(),
        forall|name: Seq<char>|
            #[trigger] m.get_spec(name) == alias_of(snapshots@, name, snapshots@.len() as int),
{
    let mut m = TextMap::new();
    let mut i: usize = 0;
    while i < snapshots.len()
        invariant
            i <= snapshots@.len(),
            m.wf(),
            forall|name: Seq<char>| #[trigger] m.get_spec(name) == alias_of(snapshots@, name, i as int),
        decreases snapshots@.len() - i,
    {
        m.insert(snapshots[i].provider_name.as_str(), snapshots[i].provider_type.as_str());
        i = i + 1;
    }
    m
}

// ── Commands and answers ────────────────────────────────────────────────────

/// `connect_provider` payload.
#[derive(Debug)]
pub struct ConnectProviderCommand {
    pub request_id: String,
    pub target: StorageTarget,
    pub provider_id: String,
    pub auth_method_id: Option<String>,
    pub fields: TextMap,
}

/// `disconnect_provider` payload.
#[derive(Debug)]
pub struct DisconnectProviderCommand {
    pub request_id: String,
    pub target: StorageTarget,
    pub provider_id: String,
    pub provider_name: Option<String>,
    pub force: Option<bool>,
}

/// `chatgpt_usage_read` payload.
#[derive(Debug)]
pub struct ChatgptUsageReadCommand {
    pub request_id: String,
    pub target: UsageTarget,
    pub provider_name: Option<String>,
    pub force_refresh: Option<bool>,
}

/// `update_model` payload.
#[derive(Debug)]
pub struct UpdateModelCommand {
    pub request_id: String,
    pub runtime: RuntimeScopeRef,
    pub payload: UpdateModelPayload,
}

/// `connect_provider_response` payload.
#[derive(Debug)]
pub struct ConnectProviderResponseMessage {
    pub request_id: String,
    pub success: bool,
    pub target: StorageTarget,
    pub providers: Vec<ProviderEntry>,
    pub models_may_have_changed: bool,
    pub error: Option<String>,
}

/// `disconnect_provider_response` payload.
#[derive(Debug)]
pub struct DisconnectProviderResponseMessage {
    pub request_id: String,
    pub success: bool,
    pub target: StorageTarget,
    pub providers: Vec<ProviderEntry>,
    pub models_may_have_changed: bool,
    pub error: Option<String>,
}

/// `chatgpt_usage_read_response` payload, `U` the usage snapshot.
#[derive(Debug)]
pub struct ChatgptUsageReadResponseMessage<U> {
    pub request_id: String,
    pub success: bool,
    pub target: UsageTarget,
    pub usage: Option<U>,
    pub error: Option<UsageError>,
}

/// `update_model_response` payload, `S` the model settings.
#[derive(Debug)]
pub struct UpdateModelResponseMessage<S> {
    pub request_id: String,
    pub success: bool,
    pub runtime: Option<RuntimeScopeRef>,
    pub applied_to: Option<String>,
    pub model_id: Option<String>,
    pub model_handle: Option<String>,
    pub model_settings: Option<S>,
    pub error: Option<String>,
}

/// What the provider runtime is asked to remove on a disconnect.
#[derive(Debug)]
pub struct DisconnectInput {
    pub provider_id: String,
    pub provider_name: Option<String>,
    pub force: bool,
}

/// The removal a disconnect asks for: the row's stored record, the named
/// record if one is given, forced only when asked.
pub fn disconnect_input(command: &DisconnectProviderCommand) -> (i: DisconnectInput)
    ensures
        i.provider_id@ == record_id_spec(command.provider_id@),
        ov(i.provider_name) == ov(command.provider_name),
        i.force == (command.force == Some(true)),
{
    DisconnectInput {
        provider_id: record_id(command.provider_id.as_str()),
        provider_name: match &command.provider_name {
            Some(n) => Some(copy_string(n.as_str())),
            None => None,
        },
        force: match command.force {
            Some(f) => f,
            None => false,
        },
    }
}

/// Answer to `disconnect_provider`: on success the refreshed providers;
/// on failure the runtime's detail and no providers.
pub fn disconnect_answer(command: &DisconnectProviderCommand, outcome: Result<Vec<ProviderEntry>, String>) -> (m:
    DisconnectProviderResponseMessage)
    ensures
        m.request_id@ == command.request_id@,
        m.target == command.target,
        match outcome {
            Ok(p) => m.success && m.providers == p && m.models_may_have_changed && m.error is None,
            Err(e) => !m.success && m.providers@.len() == 0 && !m.models_may_have_changed && ov(m.error)
                == Some(e@),
        },
{
    let (success, providers, changed, error) = match outcome {
        Ok(p) => (true, p, true, None),
        Err(e) => (false, Vec::new(), false, Some(e)),
    };
    DisconnectProviderResponseMessage {
        request_id: copy_string(command.request_id.as_str()),
        success,
        target: command.target,
        providers,
        models_may_have_changed: changed,
        error,
    }
}

/// Answer to `connect_provider`: on success the refreshed providers; a
/// failure answers its detail on the local target with no providers.
pub fn connect_answer(command: &ConnectProviderCommand, outcome: Result<Vec<ProviderEntry>, String>) -> (m:
    ConnectProviderResponseMessage)
    ensures
        m.request_id@ == command.request_id@,
        match outcome {
            Ok(p) => m.success && m.target == command.target && m.providers == p && m.models_may_have_changed
                && m.error is None,
            Err(e) => !m.success && m.target == StorageTarget::Local && m.providers@.len() == 0
                && !m.models_may_have_changed && ov(m.error) == Some(e@),
        },
{
    match outcome {
        Ok(p) => ConnectProviderResponseMessage {
            request_id: copy_string(command.request_id.as_str()),
            success: true,
            target: command.target,
            providers: p,
            models_may_have_changed: true,
            error: None,
        },
        Err(e) => ConnectProviderResponseMessage {
            request_id: copy_string(command.request_id.as_str()),
            success: false,
            target: StorageTarget::Local,
            providers: Vec::new(),
            models_may_have_changed: false,
            error: Some(e),
        },
    }
}

/// Answer to `chatgpt_usage_read` from the read (or the refusal of
/// [`usage_source`]).
pub fn usage_answer<U>(command: &ChatgptUsageReadCommand, outcome: Result<U, UsageError>) -> (m:
    ChatgptUsageReadResponseMessage<U>)
    ensures
        m.request_id@ == command.request_id@,
        m.target == command.target,
        match outcome {
            Ok(u) => m.success && m.usage == Some(u) && m.error is None,
            Err(e) => !m.success && m.usage is None && m.error == Some(e),
        },
{
    let (success, usage, error) = match outcome {
        Ok(u) => (true, Some(u), None),
        Err(e) => (false, None, Some(e)),
    };
    ChatgptUsageReadResponseMessage {
        request_id: copy_string(command.request_id.as_str()),
        success,
        target: command.target,
        usage,
        error,
    }
}

/// Why the provider runtime refused to store a model.
#[derive(Clone, Copy, Debug, PartialEq, Eq)]
pub enum ModelUpdateFailure {
    Unavailable,
    Other,
}

/// Detail of an update whose fields name no model.
pub open spec fn model_not_found() -> Seq<char> {
    "Model not found. Provide a valid model_id from list_models or a model_handle."@
}

fn copy_scope(r: &RuntimeScopeRef) -> (c: RuntimeScopeRef)
    ensures
        c.agent_id@ == r.agent_id@,
        c.conversation_id@ == r.conversation_id@,
        ov(c.acting_user_id) == ov(r.acting_user_id),
{
    RuntimeScopeRef {
        agent_id: copy_string(r.agent_id.as_str()),
        conversation_id: copy_string(r.conversation_id.as_str()),
        acting_user_id: match &r.acting_user_id {
            Some(a) => Some(copy_string(a.as_str())),
            None => None,
        },
    }
}

/// Answer to `update_model` from the selected handle (`None` when no field
/// names a model) and the store's outcome: success echoes the scope, the
/// level applied to, the model id (the handle when none was given), the
/// handle and the stored settings; failures echo the request's fields with
/// the not-found, unavailable or catch-all detail.
pub fn update_model_answer<S>(
    preferences: &mut TextMap,
    command: &UpdateModelCommand,
    handle: Option<String>,
    stored: Result<S, ModelUpdateFailure>,
) -> (m: UpdateModelResponseMessage<S>)
    requires
        old(preferences).wf(),
    ensures
        final(preferences).wf(),
        m.success ==> final(preferences).get_spec(
            model_scope_key_spec(command.runtime.agent_id@, command.runtime.conversation_id@),
        ) is None,
        m.success ==> forall|k: Seq<char>|
            k != model_scope_key_spec(command.runtime.agent_id@, command.runtime.conversation_id@)
                ==> #[trigger] final(preferences).get_spec(k) == old(preferences).get_spec(k),
        !m.success ==> *final(preferences) == *old(preferences),
        m.request_id@ == command.request_id@,
        m.runtime matches Some(r) && r.agent_id@ == command.runtime.agent_id@ && r.conversation_id@
            == command.runtime.conversation_id@,
        match handle {
            None => !m.success && m.applied_to is None && ov(m.model_id) == ov(command.payload.model_id)
                && ov(m.model_handle) == ov(command.payload.model_handle) && m.model_settings is None && ov(
                m.error,
            ) == Some(model_not_found()),
            Some(h) => match stored {
                Ok(settings) => m.success && ov(m.applied_to) == Some(
                    applied_to_spec(command.runtime.conversation_id@),
                ) && ov(m.model_id) == Some(
                    match command.payload.model_id {
                        Some(i) => i@,
                        None => h@,
                    },
                ) && ov(m.model_handle) == Some(h@) && m.model_settings == Some(settings) && m.error is None,
                Err(f) => !m.success && m.applied_to is None && ov(m.model_id) == ov(command.payload.model_id)
                    && ov(m.model_handle) == ov(command.payload.model_handle) && m.model_settings is None
                    && ov(m.error) == Some(
                    if f == ModelUpdateFailure::Unavailable {
                        "model unavailable"@
                    } else {
                        "Failed to update model"@
                    },
                ),
            },
        },
{
    let copy_opt = |o: &Option<String>| -> (r: Option<String>)
        ensures
            ov(r) == ov(*o),
        {
            match o {
                Some(x) => Some(copy_string(x.as_str())),
                None => None,
            }
        };
    let failure = |detail: String| -> (r: UpdateModelResponseMessage<S>)
        ensures
            r.request_id@ == command.request_id@,
            r.runtime matches Some(x) && x.agent_id@ == command.runtime.agent_id@ && x.conversation_id@
                == command.runtime.conversation_id@,
            !r.success && r.applied_to is None && ov(r.model_id) == ov(command.payload.model_id) && ov(
                r.model_handle,
            ) == ov(command.payload.model_handle) && r.model_settings is None && ov(r.error) == Some(detail@),
        {
            UpdateModelResponseMessage {
                request_id: copy_string(command.request_id.as_str()),
                success: false,
                runtime: Some(copy_scope(&command.runtime)),
                applied_to: None,
                model_id: copy_opt(&command.payload.model_id),
                model_handle: copy_opt(&command.payload.model_handle),
                model_settings: None,
                error: Some(detail),
            }
        };
    let h = match handle {
        Some(h) => h,
        None => return failure(
            copy_string("Model not found. Provide a valid model_id from list_models or a model_handle."),
        ),
    };
    match stored {
        Ok(settings) => {
            clear_toolset(preferences, &command.runtime);
            UpdateModelResponseMessage {
            request_id: copy_string(command.request_id.as_str()),
            success: true,
            runtime: Some(copy_scope(&command.runtime)),
            applied_to: Some(applied_to(&command.runtime)),
            model_id: Some(
                match &command.payload.model_id {
                    Some(i) => copy_string(i.as_str()),
                    None => copy_string(h.as_str()),
                },
            ),
            model_handle: Some(h),
            model_settings: Some(settings),
            error: None,
        }
        },
        Err(ModelUpdateFailure::Unavailable) => failure(copy_string("model unavailable")),
        Err(ModelUpdateFailure::Other) => failure(copy_string("Failed to update model")),
    }
}

/// One catalog model and whether a live connection makes it usable.
#[derive(Debug)]
pub struct ListedModel {
    pub handle: String,
    pub ready: bool,
}

/// Handles of the ready models, in catalog order.
pub open spec fn ready_handles(s: Seq<ListedModel>) -> Seq<Seq<char>>
    decreases s.len(),
{
    if s.len() == 0 {
        Seq::empty()
    } else if s.last().ready {
        ready_handles(s.drop_last()).push(s.last().handle@)
    } else {
        ready_handles(s.drop_last())
    }
}

/// Executable [`ready_handles`].
pub fn available_handles(listed: &Vec<ListedModel>) -> (r: Vec<String>)
    ensures
        r@.map_values(|h: String| h@) == ready_handles(listed@),
{
    let mut r: Vec<String> = Vec::new();
    let mut i: usize = 0;
    while i < listed.len()
        invariant
            i <= listed@.len(),
            r@.map_values(|h: String| h@) == ready_handles(listed@.subrange(0, i as int)),
        decreases listed@.len() - i,
    {
        let ghost prev = r@;
        if listed[i].ready {
            r.push(copy_string(listed[i].handle.as_str()));
            proof {
                assert(r@.map_values(|h: String| h@) =~= prev.map_values(|h: String| h@).push(
                    listed@[i as int].handle@,
                ));
            }
        }
        proof {
            assert(listed@.subrange(0, i + 1).drop_last() =~= listed@.subrange(0, i as int));
        }
        i = i + 1;
    }
    proof {
        assert(listed@.subrange(0, listed@.len() as int) =~= listed@);
    }
    r
}

// ── Listings ────────────────────────────────────────────────────────────────

/// `list_models` payload.
#[derive(Debug)]
pub struct ListModelsCommand {
    pub request_id: String,
    pub force: Option<bool>,
}

/// `list_connect_providers` payload.
#[derive(Debug)]
pub struct ListConnectProvidersCommand {
    pub request_id: String,
    pub target: StorageTarget,
}

/// `update_toolset` payload, `T` the toolset preference.
#[derive(Debug)]
pub struct UpdateToolsetCommand<T> {
    pub request_id: String,
    pub runtime: RuntimeScopeRef,
    pub toolset_preference: T,
}

/// The seven models group commands; `T` is the toolset preference.
#[derive(Debug)]
pub enum ModelsCommand<T> {
    ListModels(ListModelsCommand),
    ListConnectProviders(ListConnectProvidersCommand),
    ConnectProvider(ConnectProviderCommand),
    DisconnectProvider(DisconnectProviderCommand),
    ChatgptUsageRead(ChatgptUsageReadCommand),
    UpdateModel(UpdateModelCommand),
    UpdateToolset(UpdateToolsetCommand<T>),
}

/// One listed model; `R` is its readiness, `S` its default settings.
#[derive(Debug)]
pub struct ModelEntry<R, S> {
    pub id: String,
    pub handle: String,
    pub label: String,
    pub description: String,
    pub readiness: R,
    pub model_settings: S,
}

/// `list_models_response` payload.
#[derive(Debug)]
pub struct ListModelsResponseMessage<R, S> {
    pub request_id: String,
    pub success: bool,
    pub entries: Vec<ModelEntry<R, S>>,
    pub available_handles: Vec<String>,
    pub byok_provider_aliases: TextMap,
    pub error: Option<String>,
}

/// Answer to `list_models`: the entries, the ready handles among the
/// listed models, the connected aliases.
pub fn list_models_answer<R, S>(
    command: &ListModelsCommand,
    entries: Vec<ModelEntry<R, S>>,
    listed: &Vec<ListedModel>,
    snapshots: &Vec<ConnectionSnapshot>,
) -> (m: ListModelsResponseMessage<R, S>)
    ensures
        m.request_id@ == command.request_id@,
        m.success,
        m.entries == entries,
        m.available_handles@.map_values(|h: String| h@) == ready_handles(listed@),
        m.byok_provider_aliases.wf(),
        forall|name: Seq<char>|
            #[trigger] m.byok_provider_aliases.get_spec(name) == alias_of(
                snapshots@,
                name,
                snapshots@.len() as int,
            ),
        m.error is None,
{
    ListModelsResponseMessage {
        request_id: copy_string(command.request_id.as_str()),
        success: true,
        entries,
        available_handles: available_handles(listed),
        byok_provider_aliases: byok_provider_aliases(snapshots),
        error: None,
    }
}

/// Redacted state of one stored connection; `A` is its auth method, `V`
/// its timeout object.
#[derive(Debug)]
pub struct ConnectionState<A, V> {
    pub is_connected: bool,
    pub id: Option<String>,
    pub provider_name: Option<String>,
    pub provider_type: Option<String>,
    pub auth_type: Option<A>,
    pub base_url: Option<String>,
    pub timeout: Option<V>,
    pub region: Option<String>,
}

impl<A, V> ConnectionState<A, V> {
    /// Placeholder of a row without connections.
    pub fn disconnected() -> (s: Self)
        ensures
            !s.is_connected,
            s.id is None && s.provider_name is None && s.provider_type is None,
            s.auth_type is None && s.base_url is None && s.timeout is None && s.region is None,
    {
        ConnectionState {
            is_connected: false,
            id: None,
            provider_name: None,
            provider_type: None,
            auth_type: None,
            base_url: None,
            timeout: None,
            region: None,
        }
    }
}

/// State of one stored connection, with the fields the provider runtime
/// keeps beside those read here.
pub fn connection_state<A, V>(
    snapshot: &ConnectionSnapshot,
    auth_type: A,
    base_url: Option<String>,
    timeout: Option<V>,
    region: Option<String>,
) -> (s: ConnectionState<A, V>)
    ensures
        s.is_connected == snapshot.is_connected,
        ov(s.id) == Some(snapshot.id@),
        ov(s.provider_name) == Some(snapshot.provider_name@),
        ov(s.provider_type) == Some(snapshot.provider_type@),
        s.auth_type == Some(auth_type),
        s.base_url == base_url && s.timeout == timeout && s.region == region,
{
    ConnectionState {
        is_connected: snapshot.is_connected,
        id: Some(copy_string(snapshot.id.as_str())),
        provider_name: Some(copy_string(snapshot.provider_name.as_str())),
        provider_type: Some(copy_string(snapshot.provider_type.as_str())),
        auth_type: Some(auth_type),
        base_url,
        timeout,
        region,
    }
}

/// `list_connect_providers_response` payload.
#[derive(Debug)]
pub struct ListConnectProvidersResponseMessage {
    pub request_id: String,
    pub success: bool,
    pub target: StorageTarget,
    pub providers: Vec<ProviderEntry>,
    pub error: Option<String>,
}

/// Answer to `list_connect_providers`: the catalog merged with the stored
/// connections.
pub fn list_connect_providers_answer(command: &ListConnectProvidersCommand, snapshots: &Vec<ConnectionSnapshot>) -> (m:
    ListConnectProvidersResponseMessage)
    ensures
        m.request_id@ == command.request_id@,
        m.success,
        m.target == command.target,
        m.error is None,
        ({
            let orphans = orphan_positions(snapshots@, catalog(), snapshots@.len() as int);
            &&& m.providers@.len() == catalog().len() + orphans.len()
            &&& forall|i: int|
                0 <= i < catalog().len() ==> row_entry(#[trigger] m.providers@[i], catalog()[i], i, snapshots@)
            &&& forall|j: int|
                0 <= j < orphans.len() ==> orphan_entry(
                    #[trigger] m.providers@[catalog().len() + j],
                    snapshots@[orphans[j] as int],
                    orphans[j],
                )
        }),
{
    ListConnectProvidersResponseMessage {
        request_id: copy_string(command.request_id.as_str()),
        success: true,
        target: command.target,
        providers: provider_entries(snapshots),
        error: None,
    }
}

/// Credit balance of a usage snapshot.
#[derive(Debug)]
pub struct UsageCredits {
    pub balance: Option<String>,
    pub available_count: Option<u64>,
    pub has_credits: Option<bool>,
    pub unlimited: Option<bool>,
}

/// `update_toolset_response` payload.
#[derive(Debug)]
pub struct UpdateToolsetResponseMessage<T> {
    pub request_id: String,
    pub success: bool,
    pub runtime: Option<RuntimeScopeRef>,
    pub current_toolset: Option<String>,
    pub current_toolset_preference: Option<T>,
    pub error: Option<String>,
}

/// Answer to `update_toolset`: the preference stored for the scope and the
/// toolset it resolves to.
pub fn update_toolset_answer<T>(command: UpdateToolsetCommand<T>, resolved: String) -> (m: UpdateToolsetResponseMessage<T>)
    ensures
        m.request_id@ == command.request_id@,
        m.success,
        m.runtime matches Some(r) && r.agent_id@ == command.runtime.agent_id@ && r.conversation_id@
            == command.runtime.conversation_id@,
        ov(m.current_toolset) == Some(resolved@),
        m.current_toolset_preference == Some(command.toolset_preference),
        m.error is None,
{
    let UpdateToolsetCommand { request_id, runtime, toolset_preference } = command;
    UpdateToolsetResponseMessage {
        request_id,
        success: true,
        runtime: Some(runtime),
        current_toolset: Some(resolved),
        current_toolset_preference: Some(toolset_preference),
        error: None,
    }
}

// ── Toolset preferences ─────────────────────────────────────────────────────

/// Records the toolset preference (by its wire name) a scope chose; later
/// turns of that scope resolve their toolset from it.
pub fn store_toolset(preferences: &mut TextMap, runtime: &RuntimeScopeRef, preference: &str)
    requires
        old(preferences).wf(),
    ensures
        final(preferences).wf(),
        final(preferences).get_spec(model_scope_key_spec(runtime.agent_id@, runtime.conversation_id@))
            == Some(preference@),
        forall|k: Seq<char>|
            k != model_scope_key_spec(runtime.agent_id@, runtime.conversation_id@)
                ==> #[trigger] final(preferences).get_spec(k) == old(preferences).get_spec(k),
{
    let key = model_scope_key(runtime);
    preferences.insert(key.as_str(), preference);
}

/// Forgets a scope's toolset preference; a successful model update does
/// this, so the new model's default toolset applies.
pub fn clear_toolset(preferences: &mut TextMap, runtime: &RuntimeScopeRef)
    requires
        old(preferences).wf(),
    ensures
        final(preferences).wf(),
        final(preferences).get_spec(model_scope_key_spec(runtime.agent_id@, runtime.conversation_id@))
            is None,
        forall|k: Seq<char>|
            k != model_scope_key_spec(runtime.agent_id@, runtime.conversation_id@)
                ==> #[trigger] final(preferences).get_spec(k) == old(preferences).get_spec(k),
{
    let key = model_scope_key(runtime);
    let _ = preferences.remove(key.as_str());
}

/// The preference stored for a scope, if any.
pub fn stored_toolset(preferences: &TextMap, runtime: &RuntimeScopeRef) -> (r: Option<String>)
    ensures
        ov(r) == preferences.get_spec(model_scope_key_spec(runtime.agent_id@, runtime.conversation_id@)),
{
    let key = model_scope_key(runtime);
    preferences.get(key.as_str())
}

} // verus!
