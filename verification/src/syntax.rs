//! The part of a parsed source file that the scan looks at.

use vstd::prelude::*;
use vstd::string::*;
use crate::classes::same_text;

verus! {

/// A token that stands directly inside a delimited group.
#[derive(Clone, Debug)]
pub enum Token {
    /// An identifier, with its text.
    Ident(String),
    /// Anything else: punctuation, a literal, a nested group.
    Other,
}

impl Token {
    /// Whether the token is the identifier `NativeClass`.
    pub open spec fn is_marker(self) -> bool {
        match self {
            Token::Ident(text) => text@ == "NativeClass"@,
            Token::Other => false,
        }
    }

    /// Whether the token is the identifier `NativeClass`.
    pub fn names_marker(&self) -> (r: bool)
        ensures
            r == self.is_marker(),
    {
        match self {
            Token::Ident(text) => same_text(text.as_str(), "NativeClass"),
            Token::Other => false,
        }
    }
}

/// Whether one of the tokens of a group is the identifier `NativeClass`.
pub open spec fn group_marks(group: Seq<Token>) -> bool {
    exists|i: int| 0 <= i < group.len() && (#[trigger] group[i]).is_marker()
}

/// A token at the top of what follows an attribute's path.
#[derive(Clone, Debug)]
pub enum Fragment {
    /// A delimited group, with the tokens directly inside it.
    Group(Vec<Token>),
    /// Anything else.
    Other,
}

impl Fragment {
    /// Whether the fragment is a group that holds the identifier `NativeClass`.
    pub open spec fn marks(self) -> bool {
        match self {
            Fragment::Group(tokens) => group_marks(tokens@),
            Fragment::Other => false,
        }
    }

    /// Whether the fragment is no group.
    pub open spec fn is_stray(self) -> bool {
        self is Other
    }
}

/// An attribute of an item.
#[derive(Clone, Debug)]
pub struct Attribute {
    /// The attribute's path as written, its segments joined by `::`.
    pub path: String,
    /// What follows the path, token by token.
    pub tokens: Vec<Fragment>,
}

impl Attribute {
    /// Whether the attribute is a derive list: its path is `derive`.
    pub open spec fn is_derive(self) -> bool {
        self.path@ == "derive"@
    }

    /// Whether the attribute is a derive list that holds something other
    /// than a group.
    pub open spec fn malformed(self) -> bool {
        self.is_derive() && exists|i: int|
            0 <= i < self.tokens@.len() && (#[trigger] self.tokens@[i]).is_stray()
    }

    /// Whether the attribute is a derive list that names `NativeClass`.
    pub open spec fn marks(self) -> bool {
        self.is_derive() && exists|i: int|
            0 <= i < self.tokens@.len() && (#[trigger] self.tokens@[i]).marks()
    }
}

/// Whether one of the attributes is a malformed derive list.
pub open spec fn attrs_malformed(attrs: Seq<Attribute>) -> bool {
    exists|i: int| 0 <= i < attrs.len() && (#[trigger] attrs[i]).malformed()
}

/// Whether one of the attributes is a derive list that names `NativeClass`.
pub open spec fn attrs_mark(attrs: Seq<Attribute>) -> bool {
    exists|i: int| 0 <= i < attrs.len() && (#[trigger] attrs[i]).marks()
}

/// What kind of item a declaration is.
#[derive(Copy, Clone, Debug, PartialEq, Eq, Structural)]
pub enum ItemKind {
    Struct,
    Enum,
    /// A module, an impl, a function, and every other item.
    Other,
}

/// An item of a source file, with the items nested inside it at any depth
/// below it.
#[derive(Debug)]
pub struct Item {
    pub kind: ItemKind,
    /// The item's name; empty where it has none.
    pub name: String,
    pub attrs: Vec<Attribute>,
    /// The items declared inside this one, in source order.
    pub items: Vec<Item>,
}

impl Item {
    /// Whether the item declares a struct or an enum.
    pub open spec fn is_type(self) -> bool {
        self.kind == ItemKind::Struct || self.kind == ItemKind::Enum
    }

    /// Whether the item is a type with a malformed derive list.
    pub open spec fn malformed(self) -> bool {
        self.is_type() && attrs_malformed(self.attrs@)
    }

    /// Whether the item is a type that derives `NativeClass`, with no
    /// malformed derive list.
    pub open spec fn registers(self) -> bool {
        self.is_type() && !attrs_malformed(self.attrs@) && attrs_mark(self.attrs@)
    }
}

/// The message of the error that a malformed derive list gives.
pub open spec fn derive_error_text() -> Seq<char> {
    "Unexpected #[derive attribute]"@
}

/// Whether one of the tokens of a group is the identifier `NativeClass`.
pub fn group_names_marker(group: &Vec<Token>) -> (r: bool)
    ensures
        r == group_marks(group@),
{
    let n: usize = group.len();
    let mut i: usize = 0;
    while i < n
        invariant
            i <= n,
            n == group@.len(),
            forall|j: int| 0 <= j < i ==> !(#[trigger] group@[j]).is_marker(),
        decreases n - i,
    {
        if group[i].names_marker() {
            return true;
        }
        i = i + 1;
    }
    false
}

/// Reads one attribute: whether it is a derive list that names
/// `NativeClass`, or that it is a malformed derive list.
pub fn attribute_derives_nativeclass(attr: &Attribute) -> (r: Result<bool, String>)
    ensures
        r is Err <==> attr.malformed(),
        r matches Ok(found) ==> found == attr.marks(),
        r matches Err(message) ==> message@ == derive_error_text(),
{
    if !same_text(attr.path.as_str(), "derive") {
        return Ok(false);
    }
    let n: usize = attr.tokens.len();
    let mut found = false;
    let mut i: usize = 0;
    while i < n
        invariant
            i <= n,
            n == attr.tokens@.len(),
            attr.is_derive(),
            forall|j: int| 0 <= j < i ==> !(#[trigger] attr.tokens@[j]).is_stray(),
            found == exists|j: int| 0 <= j < i && (#[trigger] attr.tokens@[j]).marks(),
        decreases n - i,
    {
        match &attr.tokens[i] {
            Fragment::Group(tokens) => {
                if group_names_marker(tokens) {
                    found = true;
                }
            },
            Fragment::Other => {
                return Err(String::from_str("Unexpected #[derive attribute]"));
            },
        }
        i = i + 1;
    }
    Ok(found)
}

/// Reads the attributes of a declaration: whether one of its derive lists
/// names `NativeClass`, or that one of them is malformed.
pub fn derives_nativeclass(attrs: &Vec<Attribute>) -> (r: Result<bool, String>)
    ensures
        r is Err <==> attrs_malformed(attrs@),
        r matches Ok(found) ==> found == attrs_mark(attrs@),
        r matches Err(message) ==> message@ == derive_error_text(),
{
    let n: usize = attrs.len();
    let mut found = false;
    let mut i: usize = 0;
    while i < n
        invariant
            i <= n,
            n == attrs@.len(),
            forall|j: int| 0 <= j < i ==> !(#[trigger] attrs@[j]).malformed(),
            found == exists|j: int| 0 <= j < i && (#[trigger] attrs@[j]).marks(),
        decreases n - i,
    {
        match attribute_derives_nativeclass(&attrs[i]) {
            Ok(here) => {
                if here {
                    found = true;
                }
            },
            Err(message) => {
                return Err(message);
            },
        }
        i = i + 1;
    }
    Ok(found)
}

} // verus!
