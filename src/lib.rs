//! Documentation pages for modules: the record of a module's exported
//! declarations, its JSON form, its rendering, and where its page goes.
use vstd::prelude::*;

pub mod json;
pub mod model;
pub mod paths;
pub mod record;
pub mod render;
pub mod text;

pub use json::module_json;
pub use model::{Decl, Metadata, ModuleType};
pub use paths::{is_documentable, module_name, output_path, plan_entry, Target};
pub use record::{record, Field, Module, Record};
pub use render::{generate, DocError, MODULE_TEMPLATE};

verus! {

} // verus!
