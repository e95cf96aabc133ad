use vstd::prelude::*;

verus! {

/// Why building or rendering a statement failed.
#[derive(Debug, Clone, Copy, PartialEq, Eq, Structural)]
pub enum ArelError {
    /// A JSON value has no SQL literal form (an object, or an array nested where a
    /// single literal is expected).
    ValueNotSupported,
    /// The JSON shape given to a statement is not one that the statement accepts.
    StatementNotSupported,
    /// A raw-SQL array statement (`["sql ?", values..]`) whose first element is not a string.
    FirstElementNotString,
    /// A between condition whose value array does not hold exactly two elements.
    BetweenArrayLength,
    /// A prepared SQL that holds fewer `?` placeholders than prepared values.
    PrepareCountMismatch,
    /// A range condition without either bound.
    UnboundedRange,
    /// A table without a select, insert, update or delete manager.
    NoManager,
    /// An association declared without the struct that it reaches.
    MissingAssociationStruct,
    /// An association read from a record that has not been saved.
    NotPersisted,
    /// A `belongs_to` association read from a record whose foreign key is blank.
    BlankForeignKey,
    /// An attribute that no field of the model has.
    AttrNotFound,
    /// A table column that no field of the model is held in.
    ColumnNotFound,
    /// An update of a record with a locking column that changed no row: the record was
    /// saved since it was read.
    StaleRecord,
    /// A saved locking version that is not an integer of the version's range.
    InvalidLockingVersion,
}

} // verus!
