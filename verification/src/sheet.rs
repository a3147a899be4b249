//! The sections of a data sheet in INI syntax, as plain text values.

use vstd::prelude::*;

verus! {

/// One `key = value` line of a section.
#[derive(Debug)]
pub struct Property {
    pub key: String,
    pub value: String,
}

/// One section: its name, none for what stands before the first header, and
/// its lines in the order of the file.
#[derive(Debug)]
pub struct Section {
    pub name: Option<String>,
    pub properties: Vec<Property>,
}

/// What the lines of a section hold: keys with their values.
pub type Lines = Seq<(Seq<char>, Seq<char>)>;

impl Property {
    /// Key and value of this line.
    pub open spec fn view(&self) -> (Seq<char>, Seq<char>) {
        (self.key@, self.value@)
    }
}

/// What a sequence of lines holds.
pub open spec fn lines_view(properties: Seq<Property>) -> Lines {
    Seq::new(properties.len(), |i: int| properties[i]@)
}

impl Section {
    /// The name of this section.
    pub open spec fn title(&self) -> Option<Seq<char>> {
        match self.name {
            Some(name) => Some(name@),
            None => None,
        }
    }

    /// Name and lines of this section.
    pub open spec fn view(&self) -> (Option<Seq<char>>, Lines) {
        (self.title(), lines_view(self.properties@))
    }

    /// The value of the first line with the key `key`.
    pub fn get(&self, key: &String) -> (value: Option<&String>)
        ensures
            match value {
                Some(text) => value_of(self@.1, key@) == Some(text@),
                None => value_of(self@.1, key@) is None,
            },
    {
        let mut i: usize = 0;
        assert(self@.1.skip(0) =~= self@.1);
        while i < self.properties.len()
            invariant
                i <= self.properties@.len(),
                value_of(self@.1.skip(i as int), key@) == value_of(self@.1, key@),
            decreases self.properties@.len() - i,
        {
            let ghost rest = self@.1.skip(i as int);
            assert(rest.drop_first() =~= self@.1.skip(i + 1));
            if self.properties[i].key == *key {
                return Some(&self.properties[i].value);
            }
            i = i + 1;
        }
        None
    }
}

/// What a sequence of sections holds.
pub open spec fn sections_view(sections: Seq<Section>) -> Seq<(Option<Seq<char>>, Lines)> {
    Seq::new(sections.len(), |i: int| sections[i]@)
}

/// The value of the first of `lines` with the key `key`.
pub open spec fn value_of(lines: Lines, key: Seq<char>) -> Option<Seq<char>>
    decreases lines.len(),
{
    if lines.len() == 0 {
        None
    } else if lines[0].0 == key {
        Some(lines[0].1)
    } else {
        value_of(lines.drop_first(), key)
    }
}

/// The first of `sections` with the name `name`.
pub open spec fn section_named(sections: Seq<(Option<Seq<char>>, Lines)>, name: Seq<char>) -> Option<
    (Option<Seq<char>>, Lines),
>
    decreases sections.len(),
{
    if sections.len() == 0 {
        None
    } else if sections[0].0 == Some(name) {
        Some(sections[0])
    } else {
        section_named(sections.drop_first(), name)
    }
}

/// The first of `sections` with the name `name`.
pub fn find_section<'a>(sections: &'a Vec<Section>, name: &String) -> (found: Option<&'a Section>)
    ensures
        match found {
            Some(section) => section_named(sections_view(sections@), name@) == Some(section@),
            None => section_named(sections_view(sections@), name@) is None,
        },
{
    let ghost all = sections_view(sections@);
    let mut i: usize = 0;
    assert(all.skip(0) =~= all);
    while i < sections.len()
        invariant
            i <= sections@.len(),
            all == sections_view(sections@),
            section_named(all.skip(i as int), name@) == section_named(all, name@),
        decreases sections@.len() - i,
    {
        let ghost rest = all.skip(i as int);
        assert(rest.drop_first() =~= all.skip(i + 1));
        let matches = match &sections[i].name {
            Some(title) => *title == *name,
            None => false,
        };
        if matches {
            return Some(&sections[i]);
        }
        i = i + 1;
    }
    None
}

/// The error of `ini::Ini::load_from_str`: where in a text the INI syntax is
/// broken. Nothing is said of what it holds.
#[verifier::external_type_specification]
#[verifier::external_body]
pub struct ExParseError(ini::ParseError);

/// The sections that a text in INI syntax holds, each name once and in the
/// order of its first header, with the lines under that first header; none
/// where the text is not in INI syntax.
pub uninterp spec fn ini_sections(content: Seq<char>) -> Option<
    Seq<(Option<Seq<char>>, Seq<(Seq<char>, Seq<char>)>)>,
>;

/// Reads a text in INI syntax with `ini::Ini::load_from_str`, and hands out
/// what `ini::Ini::sections` and `ini::Ini::section` then give: every section
/// name once, in the order of first appearance, with the key-value lines of the
/// first section of that name, in the order of the file. The contract names
/// this result `ini_sections` of the text and claims only that it depends on
/// the text alone.
#[verifier::external_body]
fn parse_ini(content: &str) -> (result: Result<Vec<Section>, ini::ParseError>)
    ensures
        match result {
            Ok(sections) => ini_sections(content@) == Some(sections_view(sections@)),
            Err(_) => ini_sections(content@) is None,
        },
{
    let ini = ini::Ini::load_from_str(content)?;
    Ok(ini.sections().map(|name| Section {
        name: name.map(String::from),
        properties: ini.section(name).unwrap().iter().map(|(key, value)| Property {
            key: String::from(key),
            value: String::from(value),
        }).collect(),
    }).collect())
}

/// The sections of the data sheet `content`; none where it is not in INI
/// syntax.
pub fn load_sections(content: &str) -> (sections: Option<Vec<Section>>)
    ensures
        match sections {
            Some(s) => ini_sections(content@) == Some(sections_view(s@)),
            None => ini_sections(content@) is None,
        },
{
    match parse_ini(content) {
        Ok(sections) => Some(sections),
        Err(_) => None,
    }
}

} // verus!
