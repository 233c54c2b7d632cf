//! Rendering a module's documentation page through the page template.
use vstd::prelude::*;

use crate::json::{json_module, module_json};
use crate::model::{Metadata, ModuleType};
use crate::record::{record, record_of, Module, ModuleView};

verus! {

/// The page template: the module's name, then one entry for each type-level
/// and each value-level field, with its name, type and comment.
pub const MODULE_TEMPLATE: &'static str = "<!DOCTYPE html>\n\
    <html>\n\
    <head>\n\
    <meta charset=\"utf-8\">\n\
    <title>{{name}}</title>\n\
    </head>\n\
    <body>\n\
    <h1>{{name}}</h1>\n\
    <h2>Types</h2>\n\
    {{#each record.types}}\
    <div class=\"field\">\n\
    <h3 class=\"name\">{{name}}</h3>\n\
    <pre class=\"type\">{{type}}</pre>\n\
    <p class=\"comment\">{{comment}}</p>\n\
    </div>\n\
    {{/each}}\
    <h2>Values</h2>\n\
    {{#each record.values}}\
    <div class=\"field\">\n\
    <h3 class=\"name\">{{name}}</h3>\n\
    <pre class=\"type\">{{type}}</pre>\n\
    <p class=\"comment\">{{comment}}</p>\n\
    </div>\n\
    {{/each}}\
    </body>\n\
    </html>\n";

/// Why documentation could not be produced.
#[derive(Clone, Debug, PartialEq, Eq)]
pub enum DocError {
    /// A file or directory could not be read, created or written.
    FileSystem { path: String, message: String },
    /// The type checker rejected a source file.
    Typecheck { path: String, message: String },
    /// A path or a file's content is not text.
    Encoding { path: String },
    /// The template engine failed.
    Render { message: String },
}

/// The text that the template engine makes of `template` filled with the
/// JSON value `data`, or `None` where the engine fails on them.
pub uninterp spec fn rendered(template: Seq<char>, data: Seq<char>) -> Option<Seq<char>>;

/// Relies on `serde_json::from_str`, to read the JSON text `data` into a value,
/// and on handlebars' `Handlebars::render_template` with a fresh registry, to
/// fill `template` from that value. With no helpers, partials or strict mode,
/// the text depends on the two arguments alone.
#[verifier::external_body]
fn render_template(template: &str, data: &str) -> (r: Result<String, String>)
    ensures
        match rendered(template@, data@) {
            Some(t) => r matches Ok(s) && s@ == t,
            None => r is Err,
        },
{
    let value: serde_json::Value = serde_json::from_str(data).map_err(|e| e.to_string())?;
    handlebars::Handlebars::new().render_template(template, &value).map_err(|e| e.to_string())
}

/// The module `name` whose record is built from `typ` and `meta`.
pub open spec fn module_of(name: Seq<char>, typ: &ModuleType, meta: &Metadata) -> ModuleView {
    ModuleView { name, record: record_of(typ, meta) }
}

/// Builds the record of module `name` from its type and metadata and renders
/// its documentation page: the template filled with the module's JSON text.
/// Where the template engine fails on them, the result is a `Render` error.
pub fn generate(name: &str, typ: &ModuleType, meta: &Metadata) -> (r: Result<String, DocError>)
    ensures
        match rendered(MODULE_TEMPLATE@, json_module(module_of(name@, typ, meta))) {
            Some(t) => r matches Ok(s) && s@ == t,
            None => r matches Err(e) && e is Render,
        },
{
    let m = Module { name: name.to_string(), record: record(typ, meta) };
    let data = module_json(&m);
    match render_template(MODULE_TEMPLATE, data.as_str()) {
        Ok(s) => Ok(s),
        Err(message) => Err(DocError::Render { message }),
    }
}

} // verus!
