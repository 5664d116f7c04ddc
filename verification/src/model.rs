//! Data model: the public field taxonomy and the per-field record snapshot
//! that the form keeps for every discovered terminal field.

use vstd::prelude::*;

verus! {

// ---------------------------------------------------------------------------
// Public taxonomy
// ---------------------------------------------------------------------------

/// The possible kinds of fillable form fields.
#[derive(Debug, Clone, Copy, PartialEq, Eq, Structural)]
pub enum FieldType {
    Button,
    Radio,
    CheckBox,
    ListBox,
    ComboBox,
    Text,
    Unknown,
}

/// Errors that may occur while loading a document's form.
#[derive(Debug, Clone, Copy, PartialEq, Eq, Structural)]
pub enum LoadError {
    /// The document object model reported an error while the form was read.
    LopdfError,
    /// The reference did not point to any object; carries the object number
    /// and generation number of the dangling reference.
    NoSuchReference(u32, u16),
    /// An element that was expected to be a reference was not a reference.
    NotAReference,
}

/// Errors that may occur while setting values in a form.
#[derive(Debug, Clone, Copy, PartialEq, Eq, Structural)]
pub enum ValueError {
    /// The method used to set the state is incompatible with the type of the field.
    TypeMismatch,
    /// One or more selected values are not valid choices.
    InvalidSelection,
    /// Multiple values were selected when only one was allowed.
    TooManySelected,
    /// Reserved: a read-only field was edited. No operation produces this yet.
    Readonly,
}

/// The current state of a form field.
#[derive(Debug, Clone, PartialEq)]
pub enum FieldState {
    /// Push buttons have no state.
    Button,
    /// `selected` is the singular option from `options` that is selected.
    Radio { selected: String, options: Vec<String>, readonly: bool, required: bool },
    /// The toggle state of the checkbox.
    CheckBox { is_checked: bool, readonly: bool, required: bool },
    /// `selected` is the list of selected options from `options`.
    ListBox {
        selected: Vec<String>,
        options: Vec<String>,
        multiselect: bool,
        readonly: bool,
        required: bool,
    },
    /// `selected` is the list of selected options from `options`.
    ComboBox {
        selected: Vec<String>,
        options: Vec<String>,
        editable: bool,
        readonly: bool,
        required: bool,
    },
    /// User text input.
    Text { text: String, readonly: bool, required: bool },
    /// Unknown fields have no state.
    Unknown,
}

/// The mathematical shape of a [`FieldState`], with strings as char sequences.
#[verifier::ext_equal]
pub ghost enum FieldStateV {
    Button,
    Radio { selected: Seq<char>, options: Seq<Seq<char>>, readonly: bool, required: bool },
    CheckBox { is_checked: bool, readonly: bool, required: bool },
    ListBox {
        selected: Seq<Seq<char>>,
        options: Seq<Seq<char>>,
        multiselect: bool,
        readonly: bool,
        required: bool,
    },
    ComboBox {
        selected: Seq<Seq<char>>,
        options: Seq<Seq<char>>,
        editable: bool,
        readonly: bool,
        required: bool,
    },
    Text { text: Seq<char>, readonly: bool, required: bool },
    Unknown,
}

impl DeepView for FieldState {
    type V = FieldStateV;

    open spec fn deep_view(&self) -> FieldStateV {
        match self {
            FieldState::Button => FieldStateV::Button,
            FieldState::Radio { selected, options, readonly, required } => FieldStateV::Radio {
                selected: selected@,
                options: options.deep_view(),
                readonly: *readonly,
                required: *required,
            },
            FieldState::CheckBox { is_checked, readonly, required } => FieldStateV::CheckBox {
                is_checked: *is_checked,
                readonly: *readonly,
                required: *required,
            },
            FieldState::ListBox { selected, options, multiselect, readonly, required } => (
            FieldStateV::ListBox {
                selected: selected.deep_view(),
                options: options.deep_view(),
                multiselect: *multiselect,
                readonly: *readonly,
                required: *required,
            }),
            FieldState::ComboBox { selected, options, editable, readonly, required } => (
            FieldStateV::ComboBox {
                selected: selected.deep_view(),
                options: options.deep_view(),
                editable: *editable,
                readonly: *readonly,
                required: *required,
            }),
            FieldState::Text { text, readonly, required } => FieldStateV::Text {
                text: text@,
                readonly: *readonly,
                required: *required,
            },
            FieldState::Unknown => FieldStateV::Unknown,
        }
    }
}

// ---------------------------------------------------------------------------
// The per-field record snapshot
// ---------------------------------------------------------------------------

/// The field-type code carried by a terminal field record.
#[derive(Debug, Clone, Copy, PartialEq, Eq, Structural)]
pub enum FtKind {
    /// Button-kind code.
    Btn,
    /// Choice-kind code.
    Ch,
    /// Text-kind code.
    Tx,
    /// Present, but not one of the known codes.
    Other,
}

/// The current value entry of a field record, reduced to plain values.
///
/// A name or string whose bytes do not decode as text, or a value of any
/// other shape, is kept as `Other`.
#[derive(Debug, Clone)]
pub enum ValSnap {
    Absent,
    Null,
    Name(String),
    Str(String),
    StrArr(Vec<String>),
    Other,
}

/// The mathematical shape of a [`ValSnap`].
#[verifier::ext_equal]
pub ghost enum ValSnapV {
    Absent,
    Null,
    Name(Seq<char>),
    Str(Seq<char>),
    StrArr(Seq<Seq<char>>),
    Other,
}

impl DeepView for ValSnap {
    type V = ValSnapV;

    open spec fn deep_view(&self) -> ValSnapV {
        match self {
            ValSnap::Absent => ValSnapV::Absent,
            ValSnap::Null => ValSnapV::Null,
            ValSnap::Name(s) => ValSnapV::Name(s@),
            ValSnap::Str(s) => ValSnapV::Str(s@),
            ValSnap::StrArr(v) => ValSnapV::StrArr(v.deep_view()),
            ValSnap::Other => ValSnapV::Other,
        }
    }
}

/// The default-appearance entry of a field record.
#[derive(Debug, Clone)]
pub enum DaSnap {
    /// No default-appearance entry on the record.
    Missing,
    /// A default-appearance entry that is not a string.
    NotText,
    /// The raw bytes of the default-appearance operator string.
    Bytes(Vec<u8>),
}

/// The mathematical shape of a [`DaSnap`].
#[verifier::ext_equal]
pub ghost enum DaSnapV {
    Missing,
    NotText,
    Bytes(Seq<u8>),
}

impl DeepView for DaSnap {
    type V = DaSnapV;

    open spec fn deep_view(&self) -> DaSnapV {
        match self {
            DaSnap::Missing => DaSnapV::Missing,
            DaSnap::NotText => DaSnapV::NotText,
            DaSnap::Bytes(b) => DaSnapV::Bytes(b@),
        }
    }
}

/// Everything the form keeps about one discovered terminal field.
///
/// `id` is the field's identity in the document's object table. The other
/// entries mirror, as plain values, what the record held when it was read:
/// the type code, the flag bitset, the partial field name, the current
/// value, the current appearance-state name, the per-kid on-state name
/// (the first key other than `Off` of the kid's normal-appearance
/// dictionary), the field's own on-state name, the raw option list, the
/// default-appearance string, the bounding rectangle (coordinates truncated
/// to integers), and the reference to the normal-appearance stream.
#[derive(Debug)]
pub struct FieldRec {
    pub id: (u32, u16),
    pub ft: FtKind,
    pub flags: u32,
    pub name: Option<String>,
    pub value: ValSnap,
    pub app_state: Option<String>,
    pub kid_on: Vec<Option<String>>,
    pub field_on: Option<String>,
    pub opts: Vec<Option<String>>,
    pub da: DaSnap,
    pub rect: Option<(i64, i64, i64, i64)>,
    pub ap_n: Option<(u32, u16)>,
}

/// The mathematical shape of a [`FieldRec`].
#[verifier::ext_equal]
pub ghost struct FieldRecV {
    pub id: (u32, u16),
    pub ft: FtKind,
    pub flags: u32,
    pub name: Option<Seq<char>>,
    pub value: ValSnapV,
    pub app_state: Option<Seq<char>>,
    pub kid_on: Seq<Option<Seq<char>>>,
    pub field_on: Option<Seq<char>>,
    pub opts: Seq<Option<Seq<char>>>,
    pub da: DaSnapV,
    pub rect: Option<(i64, i64, i64, i64)>,
    pub ap_n: Option<(u32, u16)>,
}

impl DeepView for FieldRec {
    type V = FieldRecV;

    open spec fn deep_view(&self) -> FieldRecV {
        FieldRecV {
            id: self.id,
            ft: self.ft,
            flags: self.flags,
            name: self.name.deep_view(),
            value: self.value.deep_view(),
            app_state: self.app_state.deep_view(),
            kid_on: self.kid_on.deep_view(),
            field_on: self.field_on.deep_view(),
            opts: self.opts.deep_view(),
            da: self.da.deep_view(),
            rect: self.rect,
            ap_n: self.ap_n,
        }
    }
}

} // verus!
