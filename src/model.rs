//! The inputs of a module's documentation: its semantic type, reduced to the
//! two ordered lists of declarations that are documented, and the metadata
//! tree that holds the doc comments.
use vstd::prelude::*;

use crate::text::same_text;

verus! {

/// One declaration of a module's type: its name and the text of its type.
#[derive(Clone, Debug, PartialEq, Eq)]
pub struct Decl {
    pub name: String,
    pub typ: String,
}

impl View for Decl {
    type V = (Seq<char>, Seq<char>);

    open spec fn view(&self) -> (Seq<char>, Seq<char>) {
        (self.name@, self.typ@)
    }
}

/// The documented part of a module's semantic type.
///
/// `type_fields` holds the type-level declarations in declaration order, each
/// with its type as written (aliases not expanded). `row` holds the
/// value-level declarations in row order, each with its resolved type text
/// (aliases expanded).
#[derive(Clone, Debug, PartialEq, Eq)]
pub struct ModuleType {
    pub type_fields: Vec<Decl>,
    pub row: Vec<Decl>,
}

/// A node of the metadata tree: an optional doc comment and the metadata of
/// the declarations nested under it, by name. A collector gives each name
/// once; where a name occurs more than once, the first entry counts.
pub struct Metadata {
    pub comment: Option<String>,
    pub module: Vec<(String, Metadata)>,
}

/// The metadata that `entries` holds under `name`: the first entry of that
/// name, if any.
pub open spec fn lookup(entries: Seq<(String, Metadata)>, name: Seq<char>) -> Option<Metadata>
    decreases entries.len(),
{
    if entries.len() == 0 {
        None
    } else if entries[0].0@ == name {
        Some(entries[0].1)
    } else {
        lookup(entries.drop_first(), name)
    }
}

/// What `lookup` finds is one of the entries, under the name looked up.
pub proof fn lemma_lookup_finds_entry(entries: Seq<(String, Metadata)>, name: Seq<char>)
    ensures
        lookup(entries, name) matches Some(m) ==> exists|i: int|
            0 <= i < entries.len() && #[trigger] entries[i] == (entries[i].0, m) && entries[i].0@ == name,
    decreases entries.len(),
{
    if entries.len() > 0 && entries[0].0@ != name {
        lemma_lookup_finds_entry(entries.drop_first(), name);
        if let Some(m) = lookup(entries, name) {
            let i = choose|i: int|
                0 <= i < entries.drop_first().len() && #[trigger] entries.drop_first()[i] == (
                entries.drop_first()[i].0, m) && entries.drop_first()[i].0@ == name;
            assert(entries[i + 1] == entries.drop_first()[i]);
        }
    }
}

/// The doc comment that `meta` gives the declaration `name`: empty where there
/// is no entry for it or the entry has no comment.
pub open spec fn comment_for(meta: &Metadata, name: Seq<char>) -> Seq<char> {
    match lookup(meta.module@, name) {
        Some(m) => match m.comment {
            Some(c) => c@,
            None => Seq::empty(),
        },
        None => Seq::empty(),
    }
}

impl Metadata {
    /// The doc comment of the declaration `name`, or `""`.
    pub fn comment_of(&self, name: &str) -> (r: String)
        ensures
            r@ == comment_for(self, name@),
    {
        let n = self.module.len();
        let mut i: usize = 0;
        proof {
            assert(self.module@.subrange(0, n as int) =~= self.module@);
        }
        while i < n
            invariant
                n == self.module@.len(),
                i <= n,
                lookup(self.module@, name@) == lookup(self.module@.subrange(i as int, n as int), name@),
            decreases n - i,
        {
            let entry = &self.module[i];
            proof {
                let rest = self.module@.subrange(i as int, n as int);
                assert(rest.drop_first() =~= self.module@.subrange(i + 1, n as int));
            }
            if same_text(entry.0.as_str(), name) {
                return match &entry.1.comment {
                    Some(c) => c.clone(),
                    None => String::new(),
                };
            }
            i = i + 1;
        }
        String::new()
    }
}

} // verus!
