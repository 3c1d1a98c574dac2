//! The static description of one typed value: its type name and its ordered
//! fields.  A plain field carries an already-formatted value; a pointer field
//! carries an address into the external address space.

use vstd::prelude::*;
use crate::text::is_pointer_tag;
use crate::text::tag_is_pointer;

verus! {

/// What a field carries.
#[derive(Clone)]
pub enum FieldValue {
    /// An already-formatted plain value, printed on the field's own line.
    Plain(String),
    /// An address of a pointee in the external address space, followed
    /// through the memory during traversal.
    Pointer(u64),
}

/// One field of a record: its name, the label of its static type, and the
/// value it carries.
#[derive(Clone)]
pub struct Field {
    pub name: String,
    pub type_tag: String,
    pub value: FieldValue,
}

/// One typed value: its type name and its fields in declaration order.
#[derive(Clone)]
pub struct Record {
    pub type_label: String,
    pub fields: Vec<Field>,
}

/// The mathematical model of a field value.
pub enum FieldValueModel {
    Plain(Seq<char>),
    Pointer(u64),
}

/// The mathematical model of a field.
pub struct FieldModel {
    pub name: Seq<char>,
    pub type_tag: Seq<char>,
    pub value: FieldValueModel,
}

/// The mathematical model of a record.
pub struct RecordModel {
    pub type_label: Seq<char>,
    pub fields: Seq<FieldModel>,
}

impl View for FieldValue {
    type V = FieldValueModel;

    open spec fn view(&self) -> FieldValueModel {
        match self {
            FieldValue::Plain(s) => FieldValueModel::Plain(s@),
            FieldValue::Pointer(a) => FieldValueModel::Pointer(*a),
        }
    }
}

impl View for Field {
    type V = FieldModel;

    open spec fn view(&self) -> FieldModel {
        FieldModel { name: self.name@, type_tag: self.type_tag@, value: self.value@ }
    }
}

impl View for Record {
    type V = RecordModel;

    open spec fn view(&self) -> RecordModel {
        RecordModel {
            type_label: self.type_label@,
            fields: self.fields@.map_values(|f: Field| f@),
        }
    }
}

impl FieldModel {
    /// The static classification and the carried value agree: the field
    /// carries an address exactly when its type tag names a pointer type.
    pub open spec fn wf(self) -> bool {
        (self.value is Pointer) <==> is_pointer_tag(self.type_tag)
    }
}

impl RecordModel {
    /// Every field's classification agrees with the value it carries.
    pub open spec fn wf(self) -> bool {
        forall|i: int| 0 <= i < self.fields.len() ==> (#[trigger] self.fields[i]).wf()
    }
}

impl Field {
    /// Whether this field's classification agrees with the value it
    /// carries.
    pub fn well_formed(&self) -> (b: bool)
        ensures
            b == self@.wf(),
    {
        let tagged = tag_is_pointer(self.type_tag.as_str());
        match &self.value {
            FieldValue::Plain(_) => !tagged,
            FieldValue::Pointer(_) => tagged,
        }
    }

    /// A well-formed plain field; refused when the type tag names a pointer
    /// type, which may not carry a formatted value.
    pub fn plain(name: String, type_tag: String, rendered: String) -> (r: Option<Field>)
        ensures
            (r is Some) <==> !is_pointer_tag(type_tag@),
            r matches Some(f) ==> f@ == (FieldModel {
                name: name@,
                type_tag: type_tag@,
                value: FieldValueModel::Plain(rendered@),
            }) && f@.wf(),
    {
        if tag_is_pointer(type_tag.as_str()) {
            None
        } else {
            Some(Field { name, type_tag, value: FieldValue::Plain(rendered) })
        }
    }

    /// A well-formed pointer field; refused when the type tag does not name
    /// a pointer type, which may not carry an address.
    pub fn pointer(name: String, type_tag: String, addr: u64) -> (r: Option<Field>)
        ensures
            (r is Some) <==> is_pointer_tag(type_tag@),
            r matches Some(f) ==> f@ == (FieldModel {
                name: name@,
                type_tag: type_tag@,
                value: FieldValueModel::Pointer(addr),
            }) && f@.wf(),
    {
        if tag_is_pointer(type_tag.as_str()) {
            Some(Field { name, type_tag, value: FieldValue::Pointer(addr) })
        } else {
            None
        }
    }
}

impl Record {
    /// Whether every field's classification agrees with the value it
    /// carries.
    pub fn well_formed(&self) -> (b: bool)
        ensures
            b == self@.wf(),
    {
        let n = self.fields.len();
        let mut i: usize = 0;
        while i < n
            invariant
                n == self.fields@.len(),
                i <= n,
                forall|j: int| 0 <= j < i ==> (#[trigger] self@.fields[j]).wf(),
            decreases n - i,
        {
            if !self.fields[i].well_formed() {
                assert(!self@.fields[i as int].wf());
                return false;
            }
            i += 1;
        }
        true
    }
}

} // verus!
