//! Which role each tag stands for.
//!
//! A community keeps three tables, one for affiliations, one for schools and
//! one for majors, each as a JSON object from tag to role. The mapping that
//! reconciliation works with is the three laid one after the other; a tag
//! that occurs in more than one stands for the role of the last.

use vstd::prelude::*;

verus! {

/// One line of a role mapping.
#[derive(Debug, Clone, PartialEq, Eq)]
pub struct RoleEntry {
    pub tag: String,
    pub role: u64,
}

/// Which role each tag stands for. Where a tag occurs twice, the later entry
/// counts.
#[derive(Debug, Clone, PartialEq, Eq)]
pub struct RoleMapping {
    pub entries: Vec<RoleEntry>,
}

/// The entries of a mapping as pairs of tag and role.
pub open spec fn entries_view(entries: Seq<RoleEntry>) -> Seq<(Seq<char>, u64)> {
    Seq::new(entries.len(), |i: int| (entries[i].tag@, entries[i].role))
}

impl View for RoleMapping {
    type V = Seq<(Seq<char>, u64)>;

    open spec fn view(&self) -> Seq<(Seq<char>, u64)> {
        entries_view(self.entries@)
    }
}

/// The role that `tag` stands for: that of the last entry for the tag.
pub open spec fn role_for(mapping: Seq<(Seq<char>, u64)>, tag: Seq<char>) -> Option<u64>
    decreases mapping.len(),
{
    if mapping.len() == 0 {
        None
    } else if mapping.last().0 == tag {
        Some(mapping.last().1)
    } else {
        role_for(mapping.drop_last(), tag)
    }
}

/// The attribute that holds a community's table for affiliations.
pub const AFFILIATION_ROLES: &'static str = "affiliation_roles";

/// The attribute that holds a community's table for schools.
pub const SCHOOL_ROLES: &'static str = "school_roles";

/// The attribute that holds a community's table for majors.
pub const MAJOR_ROLES: &'static str = "major_roles";

/// The table that a JSON text holds: what `serde_json::from_str` reads from it
/// as a map from text to unsigned 64-bit number, as pairs in the order of the
/// tags; or `None` where it reports an error.
pub uninterp spec fn json_role_table(text: Seq<char>) -> Option<Seq<(Seq<char>, u64)>>;

/// Calls `serde_json::from_str` for a `BTreeMap<String, u64>`, and lists the
/// map's entries.
///
/// Trusted: the result depends on the text alone. Where a tag occurs twice in
/// the text the map keeps its last role, as any map that `serde` fills does.
#[verifier::external_body]
fn parse_role_table(text: &str) -> (r: Option<Vec<RoleEntry>>)
    ensures
        match r {
            Some(table) => json_role_table(text@) == Some(entries_view(table@)),
            None => json_role_table(text@) is None,
        },
{
    let table = serde_json::from_str::<std::collections::BTreeMap<String, u64>>(text).ok()?;
    Some(table.into_iter().map(|(tag, role)| RoleEntry { tag, role }).collect())
}

/// The table of one attribute: empty where the attribute is missing or does
/// not read as a table.
pub open spec fn table_of(text: Option<Seq<char>>) -> Seq<(Seq<char>, u64)> {
    match text {
        Some(text) => match json_role_table(text) {
            Some(table) => table,
            None => Seq::empty(),
        },
        None => Seq::empty(),
    }
}

/// The mapping of a community with these three tables.
pub open spec fn role_config_of(
    affiliation_roles: Option<Seq<char>>,
    school_roles: Option<Seq<char>>,
    major_roles: Option<Seq<char>>,
) -> Seq<(Seq<char>, u64)> {
    table_of(affiliation_roles) + table_of(school_roles) + table_of(major_roles)
}

/// The content of an optional text.
pub open spec fn text_of(text: Option<&str>) -> Option<Seq<char>> {
    match text {
        Some(text) => Some(text@),
        None => None,
    }
}

impl RoleMapping {
    /// A mapping without entries.
    pub fn new() -> (mapping: RoleMapping)
        ensures
            mapping@ == Seq::<(Seq<char>, u64)>::empty(),
    {
        RoleMapping { entries: Vec::new() }
    }

    /// Adds an entry, which from now on counts for its tag.
    pub fn insert(&mut self, tag: String, role: u64)
        ensures
            final(self)@ == old(self)@.push((tag@, role)),
            role_for(final(self)@, tag@) == Some(role),
    {
        self.entries.push(RoleEntry { tag, role });
    }

    /// The role that a tag stands for, if any.
    pub fn role_for(&self, tag: &String) -> (role: Option<u64>)
        ensures
            role == role_for(self@, tag@),
    {
        let mut i: usize = self.entries.len();
        assert(self@.take(i as int) == self@);
        while i > 0
            invariant
                i <= self.entries.len(),
                role_for(self@, tag@) == role_for(self@.take(i as int), tag@),
            decreases i,
        {
            i -= 1;
            assert(self@.take(i + 1).drop_last() == self@.take(i as int));
            if self.entries[i].tag == *tag {
                return Some(self.entries[i].role);
            }
        }
        None
    }

    /// Adds a whole table behind the entries that are there, so that the
    /// table's entries count where a tag occurs in both.
    pub fn extend(&mut self, table: Vec<RoleEntry>)
        ensures
            final(self)@ == old(self)@ + entries_view(table@),
    {
        let ghost added = table@;
        let mut table = table;
        self.entries.append(&mut table);
    }
}

/// Reads the table of one attribute.
pub fn role_table(text: Option<&str>) -> (table: Vec<RoleEntry>)
    ensures
        entries_view(table@) == table_of(text_of(text)),
{
    let parsed = match text {
        Some(text) => parse_role_table(text),
        None => None,
    };
    match parsed {
        Some(table) => table,
        None => {
            let table: Vec<RoleEntry> = Vec::new();
            table
        },
    }
}

/// Builds the mapping of a community from its three tables, each as the
/// text of the attribute or `None` where the community has no such
/// attribute.
pub fn get_role_config(
    affiliation_roles: Option<&str>,
    school_roles: Option<&str>,
    major_roles: Option<&str>,
) -> (mapping: RoleMapping)
    ensures
        mapping@ == role_config_of(
            text_of(affiliation_roles),
            text_of(school_roles),
            text_of(major_roles),
        ),
{
    let mut mapping = RoleMapping::new();
    mapping.extend(role_table(affiliation_roles));
    mapping.extend(role_table(school_roles));
    mapping.extend(role_table(major_roles));
    mapping
}

/// Where one table is laid behind another, a tag stands for its role in the
/// later table, and for its role in the earlier one only where the later has
/// none.
pub proof fn lemma_later_table_counts(
    earlier: Seq<(Seq<char>, u64)>,
    later: Seq<(Seq<char>, u64)>,
    tag: Seq<char>,
)
    ensures
        role_for(earlier + later, tag) == match role_for(later, tag) {
            Some(role) => Some(role),
            None => role_for(earlier, tag),
        },
    decreases later.len(),
{
    if later.len() > 0 {
        assert((earlier + later).drop_last() == earlier + later.drop_last());
        lemma_later_table_counts(earlier, later.drop_last(), tag);
    }
}

} // verus!
