use vstd::prelude::*;

use crate::json::{field, get, string_elements, string_items, texts, JsonValue};

verus! {

/// The error of `url::Url::parse`, carried as it is until it is mapped to
/// `InitError`.
#[verifier::external_type_specification]
#[verifier::external_body]
pub struct ExParseError(url::ParseError);

/// What `url::Url::parse` makes of a text: the serialization of the URL,
/// or nothing where the text is no URL.
pub uninterp spec fn parsed_uri(text: Seq<char>) -> Option<Seq<char>>;

/// Relies on `url::Url::parse`, and on `From<Url> for String` for the
/// serialization of the URL it returns.
#[verifier::external_body]
fn parse_uri(text: &str) -> (r: Result<String, url::ParseError>)
    ensures
        match r {
            Ok(u) => parsed_uri(text@) == Some(u@),
            Err(_) => parsed_uri(text@) is None,
        },
{
    match url::Url::parse(text) {
        Ok(u) => Ok(String::from(u)),
        Err(e) => Err(e),
    }
}

/// Which files a language server is started for.
pub struct DocumentFilter {
    pub language: Option<String>,
    pub scheme: Option<String>,
    pub pattern: Option<String>,
}

/// How the host is asked to start the language server.
pub struct LaunchConfig {
    /// The locator of the server executable: a serialized URI.
    pub server_uri: String,
    pub server_args: Vec<String>,
    pub document_selector: Vec<DocumentFilter>,
    /// The options the host sent, handed on untouched.
    pub options: Option<JsonValue>,
}

/// Why no server can be started.
#[derive(Debug, PartialEq, Eq, Structural)]
pub enum InitError {
    /// The locator text does not parse as a URI.
    InvalidServerUri,
}

/// What the plugin does on an `initialize` request: start a server when it
/// can, and answer the request with success in any case.
pub struct InitializeReply {
    pub launch: Option<LaunchConfig>,
    /// The id of the request that is answered with success.
    pub success_for: u64,
}

/// The locator used when the options do not name another one.
pub open spec fn default_locator() -> Seq<char> {
    "urn:pylsp"@
}

/// The mapping of overrides within the options.
pub open spec fn overrides(options: Option<JsonValue>) -> Option<JsonValue> {
    match options {
        Some(o) => field(o, "volt"@),
        None => None,
    }
}

/// The extra arguments that the options ask for.
pub open spec fn requested_args(options: Option<JsonValue>) -> Seq<Seq<char>> {
    match overrides(options) {
        Some(o) => match field(o, "serverArgs"@) {
            Some(JsonValue::Array(items)) => string_items(items@),
            _ => seq![],
        },
        None => seq![],
    }
}

/// The server path that the options ask for, when it is a non-empty string.
pub open spec fn requested_server_path(options: Option<JsonValue>) -> Option<Seq<char>> {
    match overrides(options) {
        Some(o) => match field(o, "serverPath"@) {
            Some(JsonValue::Str(p)) => if p@.len() > 0 {
                Some(p@)
            } else {
                None
            },
            _ => None,
        },
        None => None,
    }
}

/// The text that is parsed into the server's locator.
pub open spec fn locator_text(options: Option<JsonValue>) -> Seq<char> {
    match requested_server_path(options) {
        Some(p) => "urn:"@ + p,
        None => default_locator(),
    }
}

/// The one filter of the document selector: Python files.
pub open spec fn is_python_filter(f: DocumentFilter) -> bool {
    &&& f.language is Some && f.language->0@ == "python"@
    &&& f.pattern is Some && f.pattern->0@ == "**.py"@
    &&& f.scheme is None
}

/// The document selector: exactly the Python filter.
pub open spec fn is_python_selector(s: Seq<DocumentFilter>) -> bool {
    s.len() == 1 && is_python_filter(s[0])
}

/// Whether `initialize` can start a server for these options: both the
/// default locator and the one in use parse.
pub open spec fn launchable(options: Option<JsonValue>) -> bool {
    parsed_uri(default_locator()) is Some && parsed_uri(locator_text(options)) is Some
}

impl LaunchConfig {
    /// This configuration starts the server at `uri` for these options.
    pub open spec fn launches(self, uri: Seq<char>, options: Option<JsonValue>) -> bool {
        &&& self.server_uri@ == uri
        &&& texts(self.server_args@) == requested_args(options)
        &&& is_python_selector(self.document_selector@)
        &&& self.options == options
    }
}

/// The document selector of the server: Python files, by language and name.
pub fn document_selector() -> (r: Vec<DocumentFilter>)
    ensures
        is_python_selector(r@),
{
    let filter = DocumentFilter {
        language: Some("python".to_owned()),
        scheme: None,
        pattern: Some("**.py".to_owned()),
    };
    let mut r: Vec<DocumentFilter> = Vec::new();
    r.push(filter);
    r
}

/// The extra arguments for the server: the strings of the `serverArgs`
/// array among the overrides, in order.
pub fn server_args(options: &Option<JsonValue>) -> (r: Vec<String>)
    ensures
        texts(r@) == requested_args(*options),
{
    if let Some(o) = options {
        if let Some(volt) = get(o, "volt") {
            if let Some(args) = get(volt, "serverArgs") {
                if let JsonValue::Array(items) = args {
                    return string_elements(items);
                }
            }
        }
    }
    Vec::new()
}

/// The `serverPath` string among the overrides, when it is not empty.
pub fn server_path(options: &Option<JsonValue>) -> (r: Option<String>)
    ensures
        match r {
            Some(p) => requested_server_path(*options) == Some(p@),
            None => requested_server_path(*options) is None,
        },
{
    if let Some(o) = options {
        if let Some(volt) = get(o, "volt") {
            if let Some(path) = get(volt, "serverPath") {
                if let JsonValue::Str(p) = path {
                    if !p.as_str().is_empty() {
                        return Some(p.clone());
                    }
                }
            }
        }
    }
    None
}

/// The text to parse into the server's locator: the server path under the
/// `urn` scheme, or the default locator.
pub fn locator(options: &Option<JsonValue>) -> (r: String)
    ensures
        r@ == locator_text(*options),
{
    match server_path(options) {
        Some(p) => {
            let mut text = "urn:".to_owned();
            text.append(p.as_str());
            text
        },
        None => "urn:pylsp".to_owned(),
    }
}

/// The configuration that starts the server at `server_uri`, an already
/// parsed locator, for these options.
pub fn launch_config(server_uri: String, options: Option<JsonValue>) -> (r: LaunchConfig)
    ensures
        r.launches(server_uri@, options),
{
    let server_args = server_args(&options);
    LaunchConfig { server_uri, server_args, document_selector: document_selector(), options }
}

/// Resolves the locator and the arguments of the server from the options.
///
/// Fails exactly when a locator does not parse: the default one, or the
/// one made from the server path.
pub fn initialize(options: Option<JsonValue>) -> (r: Result<LaunchConfig, InitError>)
    ensures
        r is Ok <==> launchable(options),
        r is Ok ==> r->Ok_0.launches(parsed_uri(locator_text(options))->0, options),
        r is Err ==> r->Err_0 == InitError::InvalidServerUri,
{
    let default_uri = match parse_uri("urn:pylsp") {
        Ok(u) => u,
        Err(_) => return Err(InitError::InvalidServerUri),
    };
    let server_uri = match server_path(&options) {
        Some(_) => {
            let text = locator(&options);
            match parse_uri(text.as_str()) {
                Ok(u) => u,
                Err(_) => return Err(InitError::InvalidServerUri),
            }
        },
        None => default_uri,
    };
    Ok(launch_config(server_uri, options))
}

/// Answers an `initialize` request with id `id`.
///
/// The host needs a success answer to this request even where no server
/// can be started, so a failure of `initialize` only leaves `launch` empty.
pub fn handle_initialize(id: u64, options: Option<JsonValue>) -> (r: InitializeReply)
    ensures
        r.success_for == id,
        r.launch is Some <==> launchable(options),
        r.launch is Some ==> r.launch->0.launches(parsed_uri(locator_text(options))->0, options),
{
    let launch = match initialize(options) {
        Ok(config) => Some(config),
        Err(_) => None,
    };
    InitializeReply { launch, success_for: id }
}

/// Options without the mapping of overrides start the server at the default
/// locator, with no extra arguments.
pub proof fn defaults_without_overrides(options: Option<JsonValue>, r: LaunchConfig)
    requires
        overrides(options) is None,
        r.launches(parsed_uri(locator_text(options))->0, options),
    ensures
        r.server_uri@ == parsed_uri(default_locator())->0,
        r.server_args@.len() == 0,
{
    assert(texts(r.server_args@).len() == r.server_args@.len());
}

/// The extra arguments are the string elements of the `serverArgs` array, in
/// order; its other elements are dropped.
pub proof fn args_are_the_string_elements(
    options: Option<JsonValue>,
    items: Vec<JsonValue>,
    r: LaunchConfig,
)
    requires
        overrides(options) matches Some(o) && field(o, "serverArgs"@) == Some(
            JsonValue::Array(items),
        ),
        r.launches(parsed_uri(locator_text(options))->0, options),
    ensures
        texts(r.server_args@) == string_items(items@),
{
}

/// A non-empty server path `p` starts the server at the parse of `urn:` and `p`.
pub proof fn server_path_sets_locator(options: Option<JsonValue>, p: String, r: LaunchConfig)
    requires
        overrides(options) matches Some(o) && field(o, "serverPath"@) == Some(JsonValue::Str(p)),
        p@.len() > 0,
        r.launches(parsed_uri(locator_text(options))->0, options),
    ensures
        r.server_uri@ == parsed_uri("urn:"@ + p@)->0,
{
}

/// An empty server path keeps the default locator.
pub proof fn empty_server_path_keeps_default(options: Option<JsonValue>, p: String, r: LaunchConfig)
    requires
        overrides(options) matches Some(o) && field(o, "serverPath"@) == Some(JsonValue::Str(p)),
        p@.len() == 0,
        r.launches(parsed_uri(locator_text(options))->0, options),
    ensures
        r.server_uri@ == parsed_uri(default_locator())->0,
{
}

/// Whatever the options, a started server handles exactly the Python
/// filter, and the options go on to it untouched.
pub proof fn selector_is_fixed(options: Option<JsonValue>, r: LaunchConfig)
    requires
        r.launches(parsed_uri(locator_text(options))->0, options),
    ensures
        r.document_selector@.len() == 1,
        is_python_filter(r.document_selector@[0]),
        r.options == options,
{
}

} // verus!
