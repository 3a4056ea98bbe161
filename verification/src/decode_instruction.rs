use vstd::prelude::*;
use crate::errors::{ErrorCode, Result};

verus! {

/// A parameter record that reads itself from the bytes behind the tag of an
/// instruction payload.
pub trait DecodeIx: Sized {
    fn decode(bytes: &[u8]) -> Result<Self>;
}

/// How one declared field of a parameter record takes its bytes.
#[derive(Clone, Copy, Debug, PartialEq, Eq, Structural)]
pub enum FieldKind {
    /// A field of fixed width, given in bytes.
    Fixed(usize),
    /// The byte-string field, which takes what the fixed fields leave.
    Bytes,
    /// A marker field, which takes no bytes.
    Marker,
}

/// Where one field lies in the parameter bytes.
#[derive(Clone, Copy, Debug, PartialEq, Eq, Structural)]
pub struct FieldSpan {
    pub offset: usize,
    pub len: usize,
}

/// The width of a field whose width is declared; the others count as zero.
pub open spec fn fixed_width(kind: FieldKind) -> nat {
    match kind {
        FieldKind::Fixed(size) => size as nat,
        _ => 0,
    }
}

/// The sum of the declared widths of the first `n` fields.
pub open spec fn fixed_prefix(fields: Seq<FieldKind>, n: int) -> nat
    recommends
        0 <= n <= fields.len(),
    decreases n,
{
    if n <= 0 {
        0
    } else {
        fixed_prefix(fields, n - 1) + fixed_width(fields[n - 1])
    }
}

/// The sum of all declared widths.
pub open spec fn fixed_total(fields: Seq<FieldKind>) -> nat {
    fixed_prefix(fields, fields.len() as int)
}

/// How many of the first `n` fields are byte-string fields.
pub open spec fn bytes_fields_before(fields: Seq<FieldKind>, n: int) -> nat
    recommends
        0 <= n <= fields.len(),
    decreases n,
{
    if n <= 0 {
        0
    } else {
        bytes_fields_before(fields, n - 1) + if fields[n - 1] is Bytes {
            1nat
        } else {
            0nat
        }
    }
}

/// Whether a byte-string field is declared.
pub open spec fn has_bytes_field(fields: Seq<FieldKind>) -> bool {
    bytes_fields_before(fields, fields.len() as int) > 0
}

/// The declaration is one that parameters can be read by: at most one
/// byte-string field, and a fixed total that the machine can count.
pub open spec fn well_formed(fields: Seq<FieldKind>) -> bool {
    &&& bytes_fields_before(fields, fields.len() as int) <= 1
    &&& fixed_total(fields) <= usize::MAX
}

/// Whether parameter bytes of length `len` fit the declaration: exactly the
/// fixed total where every field is fixed, at least the fixed total where a
/// byte-string field takes the rest.
pub open spec fn accepts(fields: Seq<FieldKind>, len: nat) -> bool {
    if has_bytes_field(fields) {
        len >= fixed_total(fields)
    } else {
        len == fixed_total(fields)
    }
}

/// What the byte-string field takes of parameter bytes of length `len`: all
/// that the fixed fields leave.
pub open spec fn bytes_share(fields: Seq<FieldKind>, len: nat) -> nat {
    (len - fixed_total(fields)) as nat
}

/// The width that a field takes in parameter bytes of length `len`.
pub open spec fn width_in(fields: Seq<FieldKind>, kind: FieldKind, len: nat) -> nat {
    match kind {
        FieldKind::Fixed(size) => size as nat,
        FieldKind::Bytes => bytes_share(fields, len),
        FieldKind::Marker => 0,
    }
}

/// Where field `i` starts: behind all the fields declared before it.
pub open spec fn offset_of(fields: Seq<FieldKind>, i: int, len: nat) -> nat
    recommends
        0 <= i <= fields.len(),
    decreases i,
{
    if i <= 0 {
        0
    } else {
        offset_of(fields, i - 1, len) + width_in(fields, fields[i - 1], len)
    }
}

/// The place of every field, in declaration order.
pub open spec fn spans_of(fields: Seq<FieldKind>, len: nat) -> Seq<FieldSpan> {
    Seq::new(
        fields.len(),
        |i: int|
            FieldSpan {
                offset: offset_of(fields, i, len) as usize,
                len: width_in(fields, fields[i], len) as usize,
            },
    )
}

/// The declared widths add up monotonically.
pub proof fn lemma_fixed_prefix_monotone(fields: Seq<FieldKind>, i: int, j: int)
    requires
        0 <= i <= j <= fields.len(),
    ensures
        fixed_prefix(fields, i) <= fixed_prefix(fields, j),
    decreases j - i,
{
    if i < j {
        lemma_fixed_prefix_monotone(fields, i, j - 1);
    }
}

/// The count of byte-string fields grows monotonically.
pub proof fn lemma_bytes_fields_monotone(fields: Seq<FieldKind>, i: int, j: int)
    requires
        0 <= i <= j <= fields.len(),
    ensures
        bytes_fields_before(fields, i) <= bytes_fields_before(fields, j),
    decreases j - i,
{
    if i < j {
        lemma_bytes_fields_monotone(fields, i, j - 1);
    }
}

/// Where a field starts, in closed form: the fixed widths before it, and the
/// byte-string field's share if that field comes before it.
pub proof fn lemma_offset_closed_form(fields: Seq<FieldKind>, i: int, len: nat)
    requires
        0 <= i <= fields.len(),
    ensures
        offset_of(fields, i, len) == fixed_prefix(fields, i) + bytes_fields_before(fields, i)
            * bytes_share(fields, len),
    decreases i,
{
    let share = bytes_share(fields, len);
    if i > 0 {
        lemma_offset_closed_form(fields, i - 1, len);
        let before = bytes_fields_before(fields, i - 1);
        assert((before + 1) * share == before * share + share) by (nonlinear_arith);
        assert((before + 0) * share == before * share) by (nonlinear_arith);
    } else {
        assert(0 * share == 0) by (nonlinear_arith);
    }
}

/// The fields tile the parameter bytes: each starts where the one before it
/// ends, and the last one ends with the bytes.
pub proof fn lemma_spans_tile(fields: Seq<FieldKind>, len: nat)
    requires
        well_formed(fields),
        accepts(fields, len),
    ensures
        offset_of(fields, fields.len() as int, len) == len,
        forall|i: int|
            0 <= i < fields.len() ==> #[trigger] offset_of(fields, i, len) + width_in(
                fields,
                fields[i],
                len,
            ) == offset_of(fields, i + 1, len),
        forall|i: int| 0 <= i <= fields.len() ==> #[trigger] offset_of(fields, i, len) <= len,
{
    let n = fields.len() as int;
    let share = bytes_share(fields, len);
    lemma_offset_closed_form(fields, n, len);
    let count = bytes_fields_before(fields, n);
    assert(count * share == if count == 1 {
        share
    } else {
        0
    }) by (nonlinear_arith)
        requires
            count <= 1,
    ;
    assert forall|i: int| 0 <= i <= fields.len() implies #[trigger] offset_of(fields, i, len)
        <= len by {
        lemma_offset_closed_form(fields, i, len);
        lemma_fixed_prefix_monotone(fields, i, n);
        lemma_bytes_fields_monotone(fields, i, n);
        let before = bytes_fields_before(fields, i);
        assert(before * share <= count * share) by (nonlinear_arith)
            requires
                before <= count,
        ;
    }
}

/// A validated declaration of a parameter record: its fields in declaration
/// order, with at most one byte-string field among them.
#[derive(Debug)]
pub struct IxLayout {
    fields: Vec<FieldKind>,
    fixed_total: usize,
    has_bytes: bool,
}

impl View for IxLayout {
    type V = Seq<FieldKind>;

    closed spec fn view(&self) -> Seq<FieldKind> {
        self.fields@
    }
}

impl IxLayout {
    #[verifier::type_invariant]
    spec fn inv(self) -> bool {
        &&& well_formed(self.fields@)
        &&& self.fixed_total == fixed_total(self.fields@)
        &&& self.has_bytes == has_bytes_field(self.fields@)
    }

    /// Validates a list of fields. A second byte-string field is refused, and
    /// so is a fixed total beyond what the machine can count.
    pub fn try_new(fields: Vec<FieldKind>) -> (r: Option<IxLayout>)
        ensures
            match r {
                Some(layout) => well_formed(fields@) && layout@ == fields@,
                None => !well_formed(fields@),
            },
    {
        let mut total: usize = 0;
        let mut seen: bool = false;
        let mut i: usize = 0;
        while i < fields.len()
            invariant
                i <= fields.len(),
                total == fixed_prefix(fields@, i as int),
                seen == (bytes_fields_before(fields@, i as int) > 0),
                bytes_fields_before(fields@, i as int) <= 1,
            decreases fields.len() - i,
        {
            match fields[i] {
                FieldKind::Fixed(size) => {
                    match total.checked_add(size) {
                        Some(sum) => {
                            total = sum;
                        },
                        None => {
                            proof {
                                lemma_fixed_prefix_monotone(
                                    fields@,
                                    i as int + 1,
                                    fields@.len() as int,
                                );
                            }
                            return None;
                        },
                    }
                },
                FieldKind::Bytes => {
                    if seen {
                        proof {
                            lemma_bytes_fields_monotone(
                                fields@,
                                i as int + 1,
                                fields@.len() as int,
                            );
                        }
                        return None;
                    }
                    seen = true;
                },
                FieldKind::Marker => {},
            }
            i += 1;
        }
        Some(IxLayout { fields, fixed_total: total, has_bytes: seen })
    }

    /// The declared fields, which are well formed in every layout.
    pub fn fields(&self) -> (fields: &[FieldKind])
        ensures
            fields@ == self@,
            well_formed(self@),
    {
        proof {
            use_type_invariant(self);
        }
        self.fields.as_slice()
    }

    /// The sum of the declared widths.
    pub fn fixed_total(&self) -> (total: usize)
        ensures
            total == fixed_total(self@),
    {
        proof {
            use_type_invariant(self);
        }
        self.fixed_total
    }

    /// Whether a byte-string field is declared.
    pub fn has_bytes_field(&self) -> (has: bool)
        ensures
            has == has_bytes_field(self@),
    {
        proof {
            use_type_invariant(self);
        }
        self.has_bytes
    }

    /// Places every declared field in `bytes`, in declaration order. The
    /// bytes are refused where their length does not fit the declaration.
    pub fn decode(&self, bytes: &[u8]) -> (r: Result<Vec<FieldSpan>>)
        ensures
            match r {
                Ok(spans) => accepts(self@, bytes@.len()) && spans@ == spans_of(
                    self@,
                    bytes@.len(),
                ),
                Err(e) => !accepts(self@, bytes@.len()) && e == ErrorCode::InvalidInstructionData,
            },
    {
        proof {
            use_type_invariant(self);
        }
        let len = bytes.len();
        if self.has_bytes {
            if len < self.fixed_total {
                return Err(ErrorCode::InvalidInstructionData);
            }
        } else {
            if len != self.fixed_total {
                return Err(ErrorCode::InvalidInstructionData);
            }
        }
        let share: usize = len - self.fixed_total;
        let mut spans: Vec<FieldSpan> = Vec::new();
        let mut off: usize = 0;
        let mut i: usize = 0;
        proof {
            lemma_spans_tile(self.fields@, len as nat);
        }
        while i < self.fields.len()
            invariant
                i <= self.fields.len(),
                len == bytes@.len(),
                share == len - fixed_total(self.fields@),
                well_formed(self.fields@),
                accepts(self.fields@, len as nat),
                off == offset_of(self.fields@, i as int, len as nat),
                forall|k: int|
                    0 <= k <= self.fields@.len() ==> #[trigger] offset_of(
                        self.fields@,
                        k,
                        len as nat,
                    ) <= len,
                spans@.len() == i,
                forall|k: int|
                    0 <= k < i ==> spans@[k] == spans_of(self.fields@, len as nat)[k],
            decreases self.fields.len() - i,
        {
            let width: usize = match self.fields[i] {
                FieldKind::Fixed(size) => size,
                FieldKind::Bytes => share,
                FieldKind::Marker => 0,
            };
            assert(width == width_in(self.fields@, self.fields@[i as int], len as nat));
            assert(off + width == offset_of(self.fields@, i as int + 1, len as nat));
            spans.push(FieldSpan { offset: off, len: width });
            off = off + width;
            i += 1;
        }
        assert(spans@ =~= spans_of(self.fields@, len as nat));
        Ok(spans)
    }
}

/// The type of one field as a record's declaration gives it.
#[derive(Clone, Copy, Debug, PartialEq, Eq, Structural)]
pub enum FieldType {
    /// A plain value of the given size in bytes.
    Value(usize),
    /// A fixed array of the given size in bytes, of bytes or of something
    /// else.
    Array { of_bytes: bool, size: usize },
    /// A borrowed slice, of bytes or of something else.
    Slice { of_bytes: bool },
    /// A marker that takes no bytes.
    Marker,
}

/// What kind of item a declaration declares.
#[derive(Clone, Copy, Debug, PartialEq, Eq, Structural)]
pub enum Shape {
    /// A struct whose fields have names.
    NamedStruct,
    /// A struct without named fields.
    OtherStruct,
    /// Not a struct at all.
    NotStruct,
}

/// The declaration of a parameter record, as far as reading parameters
/// depends on it.
#[derive(Debug)]
pub struct RecordDecl {
    /// Whether the fields lie in declaration order.
    pub repr_c: bool,
    pub shape: Shape,
    /// Whether the record can hold borrowed data.
    pub has_lifetime: bool,
    /// The types of the fields, in declaration order.
    pub fields: Vec<FieldType>,
}

/// Why a declaration cannot serve as a parameter record.
#[derive(Clone, Copy, Debug, PartialEq, Eq, Structural)]
pub enum LayoutError {
    /// The fields are not laid out in declaration order.
    MissingReprC,
    /// The struct's fields have no names.
    UnnamedFields,
    /// The item is no struct.
    NotAStruct,
    /// A borrowed slice of something else than bytes.
    NonByteSlice,
    /// A borrowed field in a record that cannot hold borrowed data.
    MissingLifetime,
    /// A second borrowed byte slice: the rest of the input can go to one only.
    SecondByteSlice,
    /// A fixed array of something else than bytes.
    NonByteArray,
    /// The fixed widths add up to more than the machine can count.
    TooLarge,
}

/// How a field of the given type takes its bytes.
pub open spec fn kind_of(field: FieldType) -> FieldKind {
    match field {
        FieldType::Value(size) => FieldKind::Fixed(size),
        FieldType::Array { of_bytes, size } => FieldKind::Fixed(size),
        FieldType::Slice { of_bytes } => FieldKind::Bytes,
        FieldType::Marker => FieldKind::Marker,
    }
}

/// How the fields of a declaration take their bytes, in declaration order.
pub open spec fn kinds_of(fields: Seq<FieldType>) -> Seq<FieldKind> {
    Seq::new(fields.len(), |i: int| kind_of(fields[i]))
}

/// How many of the first `n` fields are borrowed slices.
pub open spec fn slices_before(fields: Seq<FieldType>, n: int) -> nat
    recommends
        0 <= n <= fields.len(),
    decreases n,
{
    if n <= 0 {
        0
    } else {
        slices_before(fields, n - 1) + if fields[n - 1] is Slice {
            1nat
        } else {
            0nat
        }
    }
}

/// What is wrong with field `i`, seen after the fields before it.
pub open spec fn field_fault(fields: Seq<FieldType>, has_lifetime: bool, i: int) -> Option<
    LayoutError,
>
    recommends
        0 <= i < fields.len(),
{
    match fields[i] {
        FieldType::Slice { of_bytes } => if !of_bytes {
            Some(LayoutError::NonByteSlice)
        } else if !has_lifetime {
            Some(LayoutError::MissingLifetime)
        } else if slices_before(fields, i) > 0 {
            Some(LayoutError::SecondByteSlice)
        } else {
            None
        },
        FieldType::Array { of_bytes, size } => if !of_bytes {
            Some(LayoutError::NonByteArray)
        } else {
            None
        },
        _ => None,
    }
}

/// What is wrong with the first faulty field among the first `n`.
pub open spec fn first_field_fault(fields: Seq<FieldType>, has_lifetime: bool, n: int) -> Option<
    LayoutError,
>
    recommends
        0 <= n <= fields.len(),
    decreases n,
{
    if n <= 0 {
        None
    } else {
        match first_field_fault(fields, has_lifetime, n - 1) {
            Some(fault) => Some(fault),
            None => field_fault(fields, has_lifetime, n - 1),
        }
    }
}

/// What is wrong with a declaration, if anything: its layout attribute
/// first, then its shape, then its fields in declaration order, then its
/// size.
pub open spec fn declaration_fault(
    repr_c: bool,
    shape: Shape,
    has_lifetime: bool,
    fields: Seq<FieldType>,
) -> Option<LayoutError> {
    if !repr_c {
        Some(LayoutError::MissingReprC)
    } else if shape is OtherStruct {
        Some(LayoutError::UnnamedFields)
    } else if shape is NotStruct {
        Some(LayoutError::NotAStruct)
    } else {
        match first_field_fault(fields, has_lifetime, fields.len() as int) {
            Some(fault) => Some(fault),
            None => if fixed_total(kinds_of(fields)) > usize::MAX {
                Some(LayoutError::TooLarge)
            } else {
                None
            },
        }
    }
}

/// A declaration's borrowed slices are its layout's byte-string fields.
proof fn lemma_slices_are_bytes_fields(fields: Seq<FieldType>, n: int)
    requires
        0 <= n <= fields.len(),
    ensures
        bytes_fields_before(kinds_of(fields), n) == slices_before(fields, n),
    decreases n,
{
    if n > 0 {
        lemma_slices_are_bytes_fields(fields, n - 1);
    }
}

/// Without a faulty field there is at most one borrowed slice.
proof fn lemma_faultless_has_one_slice(fields: Seq<FieldType>, has_lifetime: bool, n: int)
    requires
        0 <= n <= fields.len(),
        first_field_fault(fields, has_lifetime, n) is None,
    ensures
        slices_before(fields, n) <= 1,
    decreases n,
{
    if n > 0 {
        lemma_faultless_has_one_slice(fields, has_lifetime, n - 1);
    }
}

/// Once a field is faulty, the first fault stays what it is.
proof fn lemma_first_fault_is_stable(fields: Seq<FieldType>, has_lifetime: bool, i: int, n: int)
    requires
        0 <= i <= n <= fields.len(),
        first_field_fault(fields, has_lifetime, i) is Some,
    ensures
        first_field_fault(fields, has_lifetime, n) == first_field_fault(fields, has_lifetime, i),
    decreases n - i,
{
    if i < n {
        lemma_first_fault_is_stable(fields, has_lifetime, i, n - 1);
    }
}

/// Validates the declaration of a parameter record and gives its layout.
pub fn layout_of(decl: &RecordDecl) -> (r: core::result::Result<IxLayout, LayoutError>)
    ensures
        match r {
            Ok(layout) => declaration_fault(
                decl.repr_c,
                decl.shape,
                decl.has_lifetime,
                decl.fields@,
            ) is None && layout@ == kinds_of(decl.fields@),
            Err(fault) => declaration_fault(
                decl.repr_c,
                decl.shape,
                decl.has_lifetime,
                decl.fields@,
            ) == Some(fault),
        },
{
    if !decl.repr_c {
        return Err(LayoutError::MissingReprC);
    }
    match decl.shape {
        Shape::NamedStruct => {},
        Shape::OtherStruct => {
            return Err(LayoutError::UnnamedFields);
        },
        Shape::NotStruct => {
            return Err(LayoutError::NotAStruct);
        },
    }
    let ghost fields = decl.fields@;
    let mut kinds: Vec<FieldKind> = Vec::new();
    let mut seen: bool = false;
    let mut i: usize = 0;
    while i < decl.fields.len()
        invariant
            i <= decl.fields.len(),
            fields == decl.fields@,
            decl.repr_c,
            decl.shape is NamedStruct,
            first_field_fault(fields, decl.has_lifetime, i as int) is None,
            seen == (slices_before(fields, i as int) > 0),
            kinds@.len() == i,
            forall|k: int| 0 <= k < i ==> kinds@[k] == kind_of(fields[k]),
        decreases decl.fields.len() - i,
    {
        let fault: Option<LayoutError> = match decl.fields[i] {
            FieldType::Slice { of_bytes } => {
                if !of_bytes {
                    Some(LayoutError::NonByteSlice)
                } else if !decl.has_lifetime {
                    Some(LayoutError::MissingLifetime)
                } else if seen {
                    Some(LayoutError::SecondByteSlice)
                } else {
                    seen = true;
                    kinds.push(FieldKind::Bytes);
                    None
                }
            },
            FieldType::Array { of_bytes, size } => {
                if !of_bytes {
                    Some(LayoutError::NonByteArray)
                } else {
                    kinds.push(FieldKind::Fixed(size));
                    None
                }
            },
            FieldType::Value(size) => {
                kinds.push(FieldKind::Fixed(size));
                None
            },
            FieldType::Marker => {
                kinds.push(FieldKind::Marker);
                None
            },
        };
        match fault {
            Some(e) => {
                proof {
                    assert(field_fault(fields, decl.has_lifetime, i as int) == Some(e));
                    assert(first_field_fault(fields, decl.has_lifetime, i as int + 1) == Some(e));
                    lemma_first_fault_is_stable(
                        fields,
                        decl.has_lifetime,
                        i as int + 1,
                        fields.len() as int,
                    );
                }
                return Err(e);
            },
            None => {},
        }
        i += 1;
    }
    proof {
        assert(kinds@ =~= kinds_of(fields));
        lemma_faultless_has_one_slice(fields, decl.has_lifetime, fields.len() as int);
        lemma_slices_are_bytes_fields(fields, fields.len() as int);
    }
    match IxLayout::try_new(kinds) {
        Some(layout) => Ok(layout),
        None => Err(LayoutError::TooLarge),
    }
}

} // verus!
