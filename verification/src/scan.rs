//! Finding the items of a source file that header generation must be told
//! of: the structs and enums with a representation attribute.
use vstd::prelude::*;
use vstd::string::StringExecFns;

verus! {

/// An item of a source file, as far as the scan looks at it. An attribute is
/// held by its name where its path is a single identifier, and as `None`
/// where it is not.
#[derive(Debug)]
pub enum SourceItem {
    Struct { name: String, attributes: Vec<Option<String>> },
    Enum { name: String, attributes: Vec<Option<String>> },
    Other,
}

/// What a source item says, as plain values.
pub enum SourceItemView {
    Struct { name: Seq<char>, attributes: Seq<Option<Seq<char>>> },
    Enum { name: Seq<char>, attributes: Seq<Option<Seq<char>>> },
    Other,
}

/// The names of a list of attributes.
pub open spec fn attribute_names(attributes: Seq<Option<String>>) -> Seq<Option<Seq<char>>> {
    Seq::new(
        attributes.len(),
        |i: int|
            match attributes[i] {
                Some(name) => Some(name@),
                None => None,
            },
    )
}

impl View for SourceItem {
    type V = SourceItemView;

    open spec fn view(&self) -> SourceItemView {
        match self {
            SourceItem::Struct { name, attributes } => SourceItemView::Struct {
                name: name@,
                attributes: attribute_names(attributes@),
            },
            SourceItem::Enum { name, attributes } => SourceItemView::Enum {
                name: name@,
                attributes: attribute_names(attributes@),
            },
            SourceItem::Other => SourceItemView::Other,
        }
    }
}

/// What a list of source items says.
pub open spec fn item_views(items: Seq<SourceItem>) -> Seq<SourceItemView> {
    Seq::new(items.len(), |i: int| items[i]@)
}

/// The texts of a list of strings.
pub open spec fn texts(strings: Seq<String>) -> Seq<Seq<char>> {
    Seq::new(strings.len(), |i: int| strings[i]@)
}

/// The items that `syn::parse_file` finds in a source text, or `None` where
/// it finds the text to be no Rust source file.
pub uninterp spec fn parsed_items(source: Seq<char>) -> Option<Seq<SourceItemView>>;

/// Parses a source file with `syn::parse_file` and hands out its top-level
/// items, in the order of the file, or the parser's complaint in its own
/// words. Nothing is claimed of what the parser finds in a text, only that it
/// finds the same whenever it is given the same.
#[verifier::external_body]
fn parse_items(source: &str) -> (result: Result<Vec<SourceItem>, String>)
    ensures
        match result {
            Ok(items) => parsed_items(source@) == Some(item_views(items@)),
            Err(_) => parsed_items(source@) is None,
        },
{
    let names = |attributes: &Vec<syn::Attribute>| {
        attributes.iter().map(|a| a.path().get_ident().map(|i| i.to_string())).collect()
    };
    let file = syn::parse_file(source).map_err(|e| e.to_string())?;
    Ok(file.items.iter().map(|item| match item {
        syn::Item::Struct(s) => SourceItem::Struct {
            name: s.ident.to_string(),
            attributes: names(&s.attrs),
        },
        syn::Item::Enum(e) => SourceItem::Enum {
            name: e.ident.to_string(),
            attributes: names(&e.attrs),
        },
        _ => SourceItem::Other,
    }).collect())
}

/// Why a source text could not be scanned.
#[derive(Debug)]
pub enum ScanError {
    /// The text is no Rust source file; the parser's words say why.
    Syntax { message: String },
}

/// Whether one of the attributes is named `repr`.
pub open spec fn spec_has_repr(attributes: Seq<Option<Seq<char>>>) -> bool {
    exists|i: int| 0 <= i < attributes.len() && #[trigger] attributes[i] == Some("repr"@)
}

/// The name under which an item is included in the header, if it is: the
/// name of a struct or an enum that has a representation attribute.
pub open spec fn spec_included(item: SourceItemView) -> Option<Seq<char>> {
    match item {
        SourceItemView::Struct { name, attributes } => if spec_has_repr(attributes) {
            Some(name)
        } else {
            None
        },
        SourceItemView::Enum { name, attributes } => if spec_has_repr(attributes) {
            Some(name)
        } else {
            None
        },
        SourceItemView::Other => None,
    }
}

/// The names of the items that are included in the header, in the order of
/// the items.
pub open spec fn spec_repr_names(items: Seq<SourceItemView>) -> Seq<Seq<char>>
    decreases items.len(),
{
    if items.len() == 0 {
        Seq::empty()
    } else {
        let earlier = spec_repr_names(items.drop_last());
        match spec_included(items.last()) {
            Some(name) => earlier.push(name),
            None => earlier,
        }
    }
}

/// Whether one of the attributes is named `repr`.
pub fn has_repr(attributes: &Vec<Option<String>>) -> (found: bool)
    ensures
        found == spec_has_repr(attribute_names(attributes@)),
{
    let repr = String::from_str("repr");
    let mut i: usize = 0;
    while i < attributes.len()
        invariant
            i <= attributes@.len(),
            repr@ == "repr"@,
            forall|j: int|
                0 <= j < i ==> (#[trigger] attribute_names(attributes@)[j]) != Some("repr"@),
        decreases attributes@.len() - i,
    {
        match &attributes[i] {
            Some(name) => {
                if *name == repr {
                    assert(attribute_names(attributes@)[i as int] == Some("repr"@));
                    return true;
                }
            },
            None => {},
        }
        i = i + 1;
    }
    false
}

/// The names of the structs and enums among `items` that have a
/// representation attribute, in the order of the items.
pub fn repr_names(items: &Vec<SourceItem>) -> (names: Vec<String>)
    ensures
        texts(names@) == spec_repr_names(item_views(items@)),
{
    let mut names: Vec<String> = Vec::new();
    let mut i: usize = 0;
    assert(item_views(items@).take(0) =~= Seq::empty());
    while i < items.len()
        invariant
            i <= items@.len(),
            texts(names@) == spec_repr_names(item_views(items@).take(i as int)),
        decreases items@.len() - i,
    {
        let ghost seen = item_views(items@).take(i as int);
        let ghost next = item_views(items@).take(i + 1);
        proof {
            assert(next.drop_last() =~= seen);
            assert(next.last() == items@[i as int]@);
        }
        let ghost before = texts(names@);
        match &items[i] {
            SourceItem::Struct { name, attributes } => {
                if has_repr(attributes) {
                    names.push(name.clone());
                    assert(texts(names@) =~= before.push(name@));
                }
            },
            SourceItem::Enum { name, attributes } => {
                if has_repr(attributes) {
                    names.push(name.clone());
                    assert(texts(names@) =~= before.push(name@));
                }
            },
            SourceItem::Other => {},
        }
        i = i + 1;
    }
    assert(item_views(items@).take(items@.len() as int) =~= item_views(items@));
    names
}

/// Scans a source text: the names of its structs and enums that have a
/// representation attribute, or the parser's complaint where the text is no
/// source file.
pub fn scan(source: &str) -> (result: Result<Vec<String>, ScanError>)
    ensures
        match parsed_items(source@) {
            Some(items) => result matches Ok(names) && texts(names@) == spec_repr_names(items),
            None => result is Err,
        },
{
    match parse_items(source) {
        Ok(items) => Ok(repr_names(&items)),
        Err(message) => Err(ScanError::Syntax { message }),
    }
}

} // verus!
