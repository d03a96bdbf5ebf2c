//! The logging context of a facade and the records it asks the host to emit.
//!
//! A context is a list of key/value fields. Deriving a context appends a
//! field to a copy and leaves the parent as it was. The crate writes no log
//! itself: where an entry is due, a function returns a [`Record`] that holds
//! the level, the message and every field, context first.

use vstd::prelude::*;

verus! {

/// Severity of a record, most severe first.
#[derive(Copy, Clone, Debug, PartialEq, Eq, Structural)]
pub enum Level {
    Critical,
    Error,
    Warning,
    Info,
    Debug,
    Trace,
}

impl Level {
    /// A number that grows with the severity: 1 for `Trace`, 6 for
    /// `Critical`.
    pub open spec fn spec_severity(self) -> u8 {
        match self {
            Level::Critical => 6,
            Level::Error => 5,
            Level::Warning => 4,
            Level::Info => 3,
            Level::Debug => 2,
            Level::Trace => 1,
        }
    }

    /// A number that grows with the severity.
    pub fn severity(&self) -> (rank: u8)
        ensures
            rank == self.spec_severity(),
    {
        match self {
            Level::Critical => 6,
            Level::Error => 5,
            Level::Warning => 4,
            Level::Info => 3,
            Level::Debug => 2,
            Level::Trace => 1,
        }
    }
}

/// A field as contracts see it: the key, then the value.
pub type FieldView = (Seq<char>, Seq<char>);

/// One key/value field of a context or of a record.
#[derive(Clone, Debug, PartialEq, Eq)]
pub struct Field {
    pub key: String,
    pub value: String,
}

impl View for Field {
    type V = FieldView;

    open spec fn view(&self) -> FieldView {
        (self.key@, self.value@)
    }
}

impl Field {
    /// A field with the given key and value.
    pub fn new(key: &str, value: &str) -> (field: Field)
        ensures
            field@ == (key@, value@),
    {
        Field { key: key.to_owned(), value: value.to_owned() }
    }

    /// A copy of the field.
    pub fn duplicate(&self) -> (copy: Field)
        ensures
            copy@ == self@,
    {
        Field { key: self.key.clone(), value: self.value.clone() }
    }
}

/// The fields of a list, in order, as contracts see them.
pub open spec fn fields_view(fields: Seq<Field>) -> Seq<FieldView> {
    Seq::new(fields.len(), |i: int| fields[i]@)
}

/// Copies a list of fields.
pub fn duplicate_fields(fields: &Vec<Field>) -> (copy: Vec<Field>)
    ensures
        fields_view(copy@) == fields_view(fields@),
{
    let mut copy: Vec<Field> = Vec::new();
    let mut i: usize = 0;
    while i < fields.len()
        invariant
            i <= fields.len(),
            copy.len() == i,
            forall|j: int| 0 <= j < i ==> copy@[j]@ == fields@[j]@,
        decreases fields.len() - i,
    {
        copy.push(fields[i].duplicate());
        i += 1;
    }
    assert(fields_view(copy@) =~= fields_view(fields@));
    copy
}

/// Whether a list of fields holds the given key with the given value.
pub open spec fn has_field(fields: Seq<FieldView>, key: Seq<char>, value: Seq<char>) -> bool {
    exists|i: int| 0 <= i < fields.len() && #[trigger] fields[i] == (key, value)
}

/// Whether a list of fields holds the given key, whatever its value.
pub open spec fn has_key(fields: Seq<FieldView>, key: Seq<char>) -> bool {
    exists|i: int| 0 <= i < fields.len() && (#[trigger] fields[i]).0 == key
}

/// The key under which a derived context records the name of its service.
pub const SERVICE_KEY: &'static str = "service";

/// The context that a facade attaches to every record it asks for.
#[derive(Clone, Debug, PartialEq, Eq)]
pub struct LogContext {
    fields: Vec<Field>,
}

impl View for LogContext {
    type V = Seq<FieldView>;

    closed spec fn view(&self) -> Seq<FieldView> {
        fields_view(self.fields@)
    }
}

impl LogContext {
    /// A context without fields.
    pub fn root() -> (context: LogContext)
        ensures
            context@ == Seq::<FieldView>::empty(),
    {
        let context = LogContext { fields: Vec::new() };
        assert(context@ =~= Seq::<FieldView>::empty());
        context
    }

    /// A copy of the context.
    pub fn duplicate(&self) -> (copy: LogContext)
        ensures
            copy@ == self@,
    {
        LogContext { fields: duplicate_fields(&self.fields) }
    }

    /// A context with one more field at its end. The parent is not changed:
    /// it still reads as before.
    pub fn new_child(&self, key: &str, value: String) -> (child: LogContext)
        ensures
            child@ == self@.push((key@, value@)),
    {
        let mut fields = duplicate_fields(&self.fields);
        fields.push(Field { key: key.to_owned(), value });
        let child = LogContext { fields };
        assert(child@ =~= self@.push((key@, value@)));
        child
    }

    /// The number of fields.
    pub fn len(&self) -> (n: usize)
        ensures
            n == self@.len(),
    {
        self.fields.len()
    }

    /// The fields, oldest first.
    pub fn fields(&self) -> (fields: &Vec<Field>)
        ensures
            fields_view(fields@) == self@,
    {
        &self.fields
    }

    /// Whether the context holds the given key with the given value.
    pub fn contains(&self, key: &str, value: &str) -> (found: bool)
        ensures
            found == has_field(self@, key@, value@),
    {
        holds_field(&self.fields, key, value)
    }

    /// Whether the context holds the given key, whatever its value.
    pub fn contains_key(&self, key: &str) -> (found: bool)
        ensures
            found == has_key(self@, key@),
    {
        holds_key(&self.fields, key)
    }
}

/// Whether a list of fields holds the given key with the given value.
pub fn holds_field(fields: &Vec<Field>, key: &str, value: &str) -> (found: bool)
    ensures
        found == has_field(fields_view(fields@), key@, value@),
{
    let wanted_key = key.to_owned();
    let wanted_value = value.to_owned();
    let mut i: usize = 0;
    while i < fields.len()
        invariant
            i <= fields.len(),
            wanted_key@ == key@,
            wanted_value@ == value@,
            forall|j: int| 0 <= j < i ==> #[trigger] fields_view(fields@)[j] != (key@, value@),
        decreases fields.len() - i,
    {
        if fields[i].key == wanted_key && fields[i].value == wanted_value {
            assert(fields_view(fields@)[i as int] == (key@, value@));
            return true;
        }
        i += 1;
    }
    false
}

/// Whether a list of fields holds the given key, whatever its value.
pub fn holds_key(fields: &Vec<Field>, key: &str) -> (found: bool)
    ensures
        found == has_key(fields_view(fields@), key@),
{
    let wanted_key = key.to_owned();
    let mut i: usize = 0;
    while i < fields.len()
        invariant
            i <= fields.len(),
            wanted_key@ == key@,
            forall|j: int| 0 <= j < i ==> (#[trigger] fields_view(fields@)[j]).0 != key@,
        decreases fields.len() - i,
    {
        if fields[i].key == wanted_key {
            assert(fields_view(fields@)[i as int].0 == key@);
            return true;
        }
        i += 1;
    }
    false
}

/// A record as contracts see it.
pub struct RecordView {
    pub level: Level,
    pub message: Seq<char>,
    pub fields: Seq<FieldView>,
}

/// A log entry that the host is asked to emit.
#[derive(Clone, Debug, PartialEq, Eq)]
pub struct Record {
    pub level: Level,
    pub message: &'static str,
    pub fields: Vec<Field>,
}

impl View for Record {
    type V = RecordView;

    open spec fn view(&self) -> RecordView {
        RecordView {
            level: self.level,
            message: self.message@,
            fields: fields_view(self.fields@),
        }
    }
}

impl Record {
    /// A record that carries the fields of the given context and no other.
    pub fn new(level: Level, message: &'static str, context: &LogContext) -> (record: Record)
        ensures
            record@ == (RecordView { level, message: message@, fields: context@ }),
    {
        Record { level, message, fields: duplicate_fields(&context.fields) }
    }

    /// The record with one more field at its end.
    pub fn with(self, key: &str, value: &str) -> (record: Record)
        ensures
            record@ == (RecordView { fields: self@.fields.push((key@, value@)), ..self@ }),
    {
        let mut fields = self.fields;
        fields.push(Field::new(key, value));
        let record = Record { level: self.level, message: self.message, fields };
        assert(record@.fields =~= self@.fields.push((key@, value@)));
        record
    }

    /// Whether the record holds the given key with the given value.
    pub fn contains(&self, key: &str, value: &str) -> (found: bool)
        ensures
            found == has_field(self@.fields, key@, value@),
    {
        holds_field(&self.fields, key, value)
    }
}

} // verus!
