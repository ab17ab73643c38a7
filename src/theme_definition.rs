//! A theme's manifest: descriptive metadata and the aliases from logical
//! template names to layout files.

use vstd::prelude::*;

verus! {

/// One alias: a logical template name and the layout file it stands for.
pub struct LayoutAlias {
    pub name: String,
    pub file: String,
}

/// The manifest of a theme.
pub struct ThemeDefinition {
    pub name: Option<String>,
    pub version: Option<String>,
    pub description: Option<String>,
    pub homepage: Option<String>,
    pub author: Option<String>,
    /// Aliases, looked up in order; the first with a matching name applies.
    pub layout_mapping: Vec<LayoutAlias>,
}

impl Default for ThemeDefinition {
    fn default() -> (r: ThemeDefinition)
        ensures
            r.name is None,
            r.version is None,
            r.description is None,
            r.homepage is None,
            r.author is None,
            r.layout_mapping@.len() == 0,
    {
        ThemeDefinition {
            name: None,
            version: None,
            description: None,
            homepage: None,
            author: None,
            layout_mapping: Vec::new(),
        }
    }
}

/// The layout file that `name` maps to: the file of the first alias named
/// `name`, or `name` itself when there is none.
pub open spec fn mapped_file(mapping: Seq<LayoutAlias>, name: Seq<char>) -> Seq<char>
    decreases mapping.len(),
{
    if mapping.len() == 0 {
        name
    } else if mapping[0].name@ == name {
        mapping[0].file@
    } else {
        mapped_file(mapping.drop_first(), name)
    }
}

impl ThemeDefinition {
    /// The layout file for a logical template name (see `mapped_file`).
    pub fn map_layout_file(&self, name: &str) -> (r: String)
        ensures
            r@ == mapped_file(self.layout_mapping@, name@),
    {
        let n = self.layout_mapping.len();
        let key = name.to_owned();
        let mut i: usize = 0;
        assert(self.layout_mapping@.subrange(0, n as int) =~= self.layout_mapping@);
        while i < n
            invariant
                n == self.layout_mapping@.len(),
                key@ == name@,
                i <= n,
                mapped_file(self.layout_mapping@, name@) == mapped_file(
                    self.layout_mapping@.subrange(i as int, n as int),
                    name@,
                ),
            decreases n - i,
        {
            let alias = &self.layout_mapping[i];
            let ghost rest = self.layout_mapping@.subrange(i as int, n as int);
            assert(rest.drop_first() =~= self.layout_mapping@.subrange(i + 1, n as int));
            assert(rest[0] == *alias);
            if alias.name == key {
                return alias.file.clone();
            }
            i = i + 1;
        }
        assert(self.layout_mapping@.subrange(n as int, n as int).len() == 0);
        name.to_owned()
    }
}

} // verus!
