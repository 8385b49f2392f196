//! The structured form of a response: named fields in a fixed order, each with
//! a value that a generic format such as JSON can hold.

use vstd::prelude::*;
use crate::text::texts;

verus! {

/// The value of a field.
#[derive(Clone, Debug, PartialEq, Eq)]
pub enum Value {
    /// No value: an option that is not set.
    Null,
    Bool(bool),
    Text(String),
    List(Vec<String>),
}

/// A named field.
#[derive(Clone, Debug, PartialEq, Eq)]
pub struct Field {
    pub name: String,
    pub value: Value,
}

/// The fields of a response, in the order in which they are written.
#[derive(Clone, Debug, PartialEq, Eq)]
pub struct Record {
    pub fields: Vec<Field>,
}

/// What a value holds, with texts as sequences of characters.
pub ghost enum ValueView {
    Null,
    Bool(bool),
    Text(Seq<char>),
    List(Seq<Seq<char>>),
}

/// What a field holds.
pub ghost struct FieldView {
    pub name: Seq<char>,
    pub value: ValueView,
}

impl View for Value {
    type V = ValueView;

    open spec fn view(&self) -> ValueView {
        match self {
            Value::Null => ValueView::Null,
            Value::Bool(flag) => ValueView::Bool(*flag),
            Value::Text(text) => ValueView::Text(text@),
            Value::List(items) => ValueView::List(texts(items@)),
        }
    }
}

impl View for Field {
    type V = FieldView;

    open spec fn view(&self) -> FieldView {
        FieldView { name: self.name@, value: self.value@ }
    }
}

impl View for Record {
    type V = Seq<FieldView>;

    open spec fn view(&self) -> Seq<FieldView> {
        Seq::new(self.fields@.len(), |i: int| self.fields@[i]@)
    }
}

/// A field of the given name that holds `text`.
pub open spec fn text_field(name: Seq<char>, text: Seq<char>) -> FieldView {
    FieldView { name, value: ValueView::Text(text) }
}

/// A field of the given name that holds `text` where there is one and no
/// value where there is none.
pub open spec fn optional_text_field(name: Seq<char>, text: Option<Seq<char>>) -> FieldView {
    FieldView {
        name,
        value: match text {
            Some(text) => ValueView::Text(text),
            None => ValueView::Null,
        },
    }
}

/// The value of the first field of the given name, if there is one.
pub open spec fn field_value(fields: Seq<FieldView>, name: Seq<char>) -> Option<ValueView>
    decreases fields.len(),
{
    if fields.len() == 0 {
        None
    } else if fields[0].name == name {
        Some(fields[0].value)
    } else {
        field_value(fields.drop_first(), name)
    }
}

/// The text of an optional string.
pub open spec fn optional_text(text: Option<String>) -> Option<Seq<char>> {
    match text {
        Some(text) => Some(text@),
        None => None,
    }
}

impl Field {
    /// A field that holds a text.
    pub fn text(name: &str, text: String) -> (field: Field)
        ensures
            field@ == text_field(name@, text@),
    {
        Field { name: name.to_owned(), value: Value::Text(text) }
    }

    /// A field that holds a copy of `text` where there is one, and no value
    /// where there is none.
    pub fn optional_text(name: &str, text: &Option<String>) -> (field: Field)
        ensures
            field@ == optional_text_field(name@, optional_text(*text)),
    {
        let value = match text {
            Some(text) => Value::Text(text.clone()),
            None => Value::Null,
        };
        Field { name: name.to_owned(), value }
    }

    /// A field that holds a flag.
    pub fn flag(name: &str, flag: bool) -> (field: Field)
        ensures
            field@ == (FieldView { name: name@, value: ValueView::Bool(flag) }),
    {
        Field { name: name.to_owned(), value: Value::Bool(flag) }
    }

    /// A field that holds a list of texts.
    pub fn list(name: &str, items: Vec<String>) -> (field: Field)
        ensures
            field@ == (FieldView { name: name@, value: ValueView::List(texts(items@)) }),
    {
        Field { name: name.to_owned(), value: Value::List(items) }
    }
}

impl Record {
    /// The value of the first field of the given name, if there is one.
    pub fn get(&self, name: &str) -> (value: Option<&Value>)
        ensures
            match value {
                Some(value) => field_value(self@, name@) == Some(value@),
                None => field_value(self@, name@) is None,
            },
    {
        let wanted = name.to_owned();
        let mut i: usize = 0;
        assert(self@.skip(0) =~= self@);
        while i < self.fields.len()
            invariant
                i <= self.fields@.len(),
                wanted@ == name@,
                field_value(self@, name@) == field_value(self@.skip(i as int), name@),
            decreases self.fields@.len() - i,
        {
            if self.fields[i].name == wanted {
                return Some(&self.fields[i].value);
            }
            assert(self@.skip(i as int).drop_first() =~= self@.skip(i as int + 1));
            i += 1;
        }
        None
    }
}

} // verus!
