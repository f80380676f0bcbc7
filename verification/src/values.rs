//! Typed-value bridging between native column or attribute values and the
//! structured output form.
//!
//! `ColumnValue` models a database column value; `AttributeValue` models a
//! hardware-query attribute value.  Both coerce totally into
//! `StructuredValue`: every variant maps to exactly one output variant,
//! numeric magnitude and sign are kept exactly, arrays recurse in order,
//! and an attribute object degrades to an empty structured container.
//! Floating-point payloads are carried as their IEEE-754 bit patterns, so
//! the coercions stay exact.

use vstd::prelude::*;
use vstd::slice::slice_to_vec;

verus! {

/// A database column value: exactly one variant is active at a time.
/// `Real` holds the IEEE-754 bit pattern of the column's 64-bit float.
#[derive(Debug, PartialEq, Eq)]
pub enum ColumnValue {
    Null,
    Integer(i64),
    Real(u64),
    Text(String),
    Blob(Vec<u8>),
}

/// Mathematical model of a `ColumnValue`.
pub enum ColVal {
    Null,
    Integer(i64),
    Real(u64),
    Text(Seq<char>),
    Blob(Seq<u8>),
}

impl View for ColumnValue {
    type V = ColVal;

    open spec fn view(&self) -> ColVal {
        match self {
            ColumnValue::Null => ColVal::Null,
            ColumnValue::Integer(v) => ColVal::Integer(*v),
            ColumnValue::Real(v) => ColVal::Real(*v),
            ColumnValue::Text(v) => ColVal::Text(v@),
            ColumnValue::Blob(v) => ColVal::Blob(v@),
        }
    }
}

/// A hardware-query attribute value.  Signed and unsigned widths are kept
/// apart so that coercion preserves magnitude and sign exactly; `R4` and
/// `R8` hold IEEE-754 bit patterns.  Arrays nest; an `Object` carries no
/// structure of its own.
#[derive(Debug, PartialEq, Eq)]
pub enum AttributeValue {
    Null,
    Empty,
    Text(String),
    Bool(bool),
    I1(i8),
    I2(i16),
    I4(i32),
    I8(i64),
    UI1(u8),
    UI2(u16),
    UI4(u32),
    UI8(u64),
    R4(u32),
    R8(u64),
    Array(Vec<AttributeValue>),
    Object,
}

/// Mathematical model of an `AttributeValue`.
pub enum AttrVal {
    Null,
    Empty,
    Text(Seq<char>),
    Bool(bool),
    I1(i8),
    I2(i16),
    I4(i32),
    I8(i64),
    UI1(u8),
    UI2(u16),
    UI4(u32),
    UI8(u64),
    R4(u32),
    R8(u64),
    Array(Seq<AttrVal>),
    Object,
}

/// Model of one attribute value; arrays are modelled through `attr_views`.
pub open spec fn attr_view(v: AttributeValue) -> AttrVal
    decreases v,
{
    match v {
        AttributeValue::Null => AttrVal::Null,
        AttributeValue::Empty => AttrVal::Empty,
        AttributeValue::Text(t) => AttrVal::Text(t@),
        AttributeValue::Bool(b) => AttrVal::Bool(b),
        AttributeValue::I1(n) => AttrVal::I1(n),
        AttributeValue::I2(n) => AttrVal::I2(n),
        AttributeValue::I4(n) => AttrVal::I4(n),
        AttributeValue::I8(n) => AttrVal::I8(n),
        AttributeValue::UI1(n) => AttrVal::UI1(n),
        AttributeValue::UI2(n) => AttrVal::UI2(n),
        AttributeValue::UI4(n) => AttrVal::UI4(n),
        AttributeValue::UI8(n) => AttrVal::UI8(n),
        AttributeValue::R4(n) => AttrVal::R4(n),
        AttributeValue::R8(n) => AttrVal::R8(n),
        AttributeValue::Array(elems) => AttrVal::Array(attr_views(elems@)),
        AttributeValue::Object => AttrVal::Object,
    }
}

/// Models of a sequence of attribute values, in order.
pub open spec fn attr_views(s: Seq<AttributeValue>) -> Seq<AttrVal>
    decreases s,
{
    if s.len() == 0 {
        Seq::empty()
    } else {
        attr_views(s.subrange(0, s.len() - 1)).push(attr_view(s[s.len() - 1]))
    }
}

/// `attr_views` maps `attr_view` over the sequence, elementwise.
pub proof fn lemma_attr_views(s: Seq<AttributeValue>)
    ensures
        attr_views(s).len() == s.len(),
        forall|i: int| 0 <= i < s.len() ==> attr_views(s)[i] == attr_view(s[i]),
    decreases s,
{
    if s.len() > 0 {
        lemma_attr_views(s.subrange(0, s.len() - 1));
    }
}

impl View for AttributeValue {
    type V = AttrVal;

    open spec fn view(&self) -> AttrVal {
        attr_view(*self)
    }
}

/// A structured output value, as handed to the serialization collaborator.
#[derive(Debug, PartialEq, Eq)]
pub enum StructuredValue {
    Null,
    Bool(bool),
    Int(i64),
    UInt(u64),
    Text(String),
    Bytes(Vec<u8>),
    F32Bits(u32),
    F64Bits(u64),
    Array(Vec<StructuredValue>),
    Object(Vec<(String, StructuredValue)>),
}

/// Mathematical model of a `StructuredValue`.
pub enum SVal {
    Null,
    Bool(bool),
    Int(i64),
    UInt(u64),
    Text(Seq<char>),
    Bytes(Seq<u8>),
    F32Bits(u32),
    F64Bits(u64),
    Array(Seq<SVal>),
    Object(Seq<(Seq<char>, SVal)>),
}

/// Model of one structured value; arrays and objects are modelled through
/// `sval_views` and `sval_pair_views`.
pub open spec fn sval_view(v: StructuredValue) -> SVal
    decreases v,
{
    match v {
        StructuredValue::Null => SVal::Null,
        StructuredValue::Bool(b) => SVal::Bool(b),
        StructuredValue::Int(n) => SVal::Int(n),
        StructuredValue::UInt(n) => SVal::UInt(n),
        StructuredValue::Text(t) => SVal::Text(t@),
        StructuredValue::Bytes(b) => SVal::Bytes(b@),
        StructuredValue::F32Bits(n) => SVal::F32Bits(n),
        StructuredValue::F64Bits(n) => SVal::F64Bits(n),
        StructuredValue::Array(elems) => SVal::Array(sval_views(elems@)),
        StructuredValue::Object(pairs) => SVal::Object(sval_pair_views(pairs@)),
    }
}

/// Models of a sequence of structured values, in order.
pub open spec fn sval_views(s: Seq<StructuredValue>) -> Seq<SVal>
    decreases s,
{
    if s.len() == 0 {
        Seq::empty()
    } else {
        sval_views(s.subrange(0, s.len() - 1)).push(sval_view(s[s.len() - 1]))
    }
}

/// Models of a sequence of named structured values, in order.
pub open spec fn sval_pair_views(s: Seq<(String, StructuredValue)>) -> Seq<(Seq<char>, SVal)>
    decreases s,
{
    if s.len() == 0 {
        Seq::empty()
    } else {
        sval_pair_views(s.subrange(0, s.len() - 1)).push(
            (s[s.len() - 1].0@, sval_view(s[s.len() - 1].1)),
        )
    }
}

/// `sval_views` maps `sval_view` over the sequence, elementwise.
pub proof fn lemma_sval_views(s: Seq<StructuredValue>)
    ensures
        sval_views(s).len() == s.len(),
        forall|i: int| 0 <= i < s.len() ==> sval_views(s)[i] == sval_view(s[i]),
    decreases s,
{
    if s.len() > 0 {
        lemma_sval_views(s.subrange(0, s.len() - 1));
    }
}

/// `sval_pair_views` maps the pair model over the sequence, elementwise.
pub proof fn lemma_sval_pair_views(s: Seq<(String, StructuredValue)>)
    ensures
        sval_pair_views(s).len() == s.len(),
        forall|i: int| 0 <= i < s.len()
            ==> sval_pair_views(s)[i] == (s[i].0@, sval_view(s[i].1)),
    decreases s,
{
    if s.len() > 0 {
        lemma_sval_pair_views(s.subrange(0, s.len() - 1));
    }
}

impl View for StructuredValue {
    type V = SVal;

    open spec fn view(&self) -> SVal {
        sval_view(*self)
    }
}

/// The structured form of a column value.
pub open spec fn structured_of_column(c: ColVal) -> SVal {
    match c {
        ColVal::Null => SVal::Null,
        ColVal::Integer(v) => SVal::Int(v),
        ColVal::Real(v) => SVal::F64Bits(v),
        ColVal::Text(v) => SVal::Text(v),
        ColVal::Blob(v) => SVal::Bytes(v),
    }
}

/// The structured form of an attribute value.  Arrays recurse elementwise
/// in order; an object becomes an empty structured container.
pub open spec fn structured_of_attribute(a: AttrVal) -> SVal
    decreases a,
{
    match a {
        AttrVal::Null => SVal::Null,
        AttrVal::Empty => SVal::Null,
        AttrVal::Text(v) => SVal::Text(v),
        AttrVal::Bool(v) => SVal::Bool(v),
        AttrVal::I1(v) => SVal::Int(v as i64),
        AttrVal::I2(v) => SVal::Int(v as i64),
        AttrVal::I4(v) => SVal::Int(v as i64),
        AttrVal::I8(v) => SVal::Int(v),
        AttrVal::UI1(v) => SVal::UInt(v as u64),
        AttrVal::UI2(v) => SVal::UInt(v as u64),
        AttrVal::UI4(v) => SVal::UInt(v as u64),
        AttrVal::UI8(v) => SVal::UInt(v),
        AttrVal::R4(v) => SVal::F32Bits(v),
        AttrVal::R8(v) => SVal::F64Bits(v),
        AttrVal::Array(elems) => SVal::Array(structured_of_attributes(elems)),
        AttrVal::Object => SVal::Object(Seq::empty()),
    }
}

/// The structured forms of a sequence of attribute values, in order.
pub open spec fn structured_of_attributes(s: Seq<AttrVal>) -> Seq<SVal>
    decreases s,
{
    if s.len() == 0 {
        Seq::empty()
    } else {
        structured_of_attributes(s.subrange(0, s.len() - 1)).push(
            structured_of_attribute(s[s.len() - 1]),
        )
    }
}

/// `structured_of_attributes` maps `structured_of_attribute` elementwise.
pub proof fn lemma_structured_of_attributes(s: Seq<AttrVal>)
    ensures
        structured_of_attributes(s).len() == s.len(),
        forall|i: int| 0 <= i < s.len()
            ==> structured_of_attributes(s)[i] == structured_of_attribute(s[i]),
    decreases s,
{
    if s.len() > 0 {
        lemma_structured_of_attributes(s.subrange(0, s.len() - 1));
    }
}

impl ColumnValue {
    /// Coerce this column value into its structured output form.
    pub fn to_structured(&self) -> (r: StructuredValue)
        ensures
            r@ == structured_of_column(self@),
    {
        match self {
            ColumnValue::Null => StructuredValue::Null,
            ColumnValue::Integer(v) => StructuredValue::Int(*v),
            ColumnValue::Real(v) => StructuredValue::F64Bits(*v),
            ColumnValue::Text(v) => StructuredValue::Text(v.clone()),
            ColumnValue::Blob(v) => StructuredValue::Bytes(slice_to_vec(v.as_slice())),
        }
    }
}

impl AttributeValue {
    /// Coerce this attribute value into its structured output form.
    #[verifier::loop_isolation(false)]
    pub fn to_structured(&self) -> (r: StructuredValue)
        ensures
            r@ == structured_of_attribute(self@),
        decreases *self,
    {
        match self {
            AttributeValue::Null => StructuredValue::Null,
            AttributeValue::Empty => StructuredValue::Null,
            AttributeValue::Text(v) => StructuredValue::Text(v.clone()),
            AttributeValue::Bool(v) => StructuredValue::Bool(*v),
            AttributeValue::I1(v) => StructuredValue::Int(*v as i64),
            AttributeValue::I2(v) => StructuredValue::Int(*v as i64),
            AttributeValue::I4(v) => StructuredValue::Int(*v as i64),
            AttributeValue::I8(v) => StructuredValue::Int(*v),
            AttributeValue::UI1(v) => StructuredValue::UInt(*v as u64),
            AttributeValue::UI2(v) => StructuredValue::UInt(*v as u64),
            AttributeValue::UI4(v) => StructuredValue::UInt(*v as u64),
            AttributeValue::UI8(v) => StructuredValue::UInt(*v),
            AttributeValue::R4(v) => StructuredValue::F32Bits(*v),
            AttributeValue::R8(v) => StructuredValue::F64Bits(*v),
            AttributeValue::Array(elems) => {
                let mut out: Vec<StructuredValue> = Vec::new();
                let n: usize = elems.len();
                for i in 0..n
                    invariant
                        n == elems@.len(),
                        out@.len() == i,
                        forall|j: int| 0 <= j < i
                            ==> sval_view(#[trigger] out@[j]) == structured_of_attribute(attr_view(elems@[j])),
                {
                    let s = elems[i].to_structured();
                    out.push(s);
                }
                proof {
                    lemma_sval_views(out@);
                    lemma_attr_views(elems@);
                    lemma_structured_of_attributes(attr_views(elems@));
                    assert(sval_views(out@) =~= structured_of_attributes(attr_views(elems@)));
                }
                StructuredValue::Array(out)
            },
            AttributeValue::Object => StructuredValue::Object(Vec::new()),
        }
    }
}

/// Coercion of column values is total: each of the five column variants
/// maps to exactly one structured variant, and payloads are kept exactly.
pub proof fn lemma_column_coercion_total(c: ColVal)
    ensures
        c is Null ==> structured_of_column(c) == SVal::Null,
        (c matches ColVal::Integer(v) ==> structured_of_column(c) == SVal::Int(v)),
        (c matches ColVal::Real(v) ==> structured_of_column(c) == SVal::F64Bits(v)),
        (c matches ColVal::Text(v) ==> structured_of_column(c) == SVal::Text(v)),
        (c matches ColVal::Blob(v) ==> structured_of_column(c) == SVal::Bytes(v)),
{
}

/// Coercion of attribute values is total: each variant maps to exactly one
/// structured variant; numeric magnitude and sign are kept exactly, with
/// unsigned values never reinterpreted as signed; arrays keep their length
/// and order; an object becomes the empty structured container.
pub proof fn lemma_attribute_coercion_total(a: AttrVal)
    ensures
        a is Null || a is Empty ==> structured_of_attribute(a) == SVal::Null,
        (a matches AttrVal::Text(v) ==> structured_of_attribute(a) == SVal::Text(v)),
        (a matches AttrVal::Bool(v) ==> structured_of_attribute(a) == SVal::Bool(v)),
        (a matches AttrVal::I1(v) ==> structured_of_attribute(a) == SVal::Int(v as i64)),
        (a matches AttrVal::I2(v) ==> structured_of_attribute(a) == SVal::Int(v as i64)),
        (a matches AttrVal::I4(v) ==> structured_of_attribute(a) == SVal::Int(v as i64)),
        (a matches AttrVal::I8(v) ==> structured_of_attribute(a) == SVal::Int(v)),
        (a matches AttrVal::UI1(v) ==> structured_of_attribute(a) == SVal::UInt(v as u64)),
        (a matches AttrVal::UI2(v) ==> structured_of_attribute(a) == SVal::UInt(v as u64)),
        (a matches AttrVal::UI4(v) ==> structured_of_attribute(a) == SVal::UInt(v as u64)),
        (a matches AttrVal::UI8(v) ==> structured_of_attribute(a) == SVal::UInt(v)),
        (a matches AttrVal::R4(v) ==> structured_of_attribute(a) == SVal::F32Bits(v)),
        (a matches AttrVal::R8(v) ==> structured_of_attribute(a) == SVal::F64Bits(v)),
        (a matches AttrVal::Array(elems) ==> structured_of_attribute(a) matches SVal::Array(outs)
            && outs.len() == elems.len()
            && (forall|i: int| 0 <= i < elems.len()
                ==> outs[i] == structured_of_attribute(elems[i]))),
        a is Object ==> structured_of_attribute(a) == SVal::Object(Seq::<(Seq<char>, SVal)>::empty()),
{
    match a {
        AttrVal::Array(elems) => lemma_structured_of_attributes(elems),
        _ => (),
    }
}

/// A database column value as carried inside a record field.
#[derive(Debug, PartialEq, Eq)]
pub struct SqlValue {
    pub value: ColumnValue,
}

impl Default for SqlValue {
    /// The default column value is `Null`.
    fn default() -> (r: Self)
        ensures
            r.value@ is Null,
    {
        SqlValue { value: ColumnValue::Null }
    }
}

impl SqlValue {
    /// Coerce the carried column value into its structured output form.
    pub fn to_structured(&self) -> (r: StructuredValue)
        ensures
            r@ == structured_of_column(self.value@),
    {
        self.value.to_structured()
    }
}

/// A hardware-query attribute value as carried inside a record field.
#[derive(Debug, PartialEq, Eq)]
pub struct WmiValue {
    pub value: AttributeValue,
}

impl Default for WmiValue {
    /// The default attribute value is `Null`.
    fn default() -> (r: Self)
        ensures
            r.value@ is Null,
    {
        WmiValue { value: AttributeValue::Null }
    }
}

impl WmiValue {
    /// Coerce the carried attribute value into its structured output form.
    pub fn to_structured(&self) -> (r: StructuredValue)
        ensures
            r@ == structured_of_attribute(self.value@),
    {
        self.value.to_structured()
    }
}

/// One deep copy of a column value.
fn copy_column_value(v: &ColumnValue) -> (r: ColumnValue)
    ensures
        r@ == v@,
{
    match v {
        ColumnValue::Null => ColumnValue::Null,
        ColumnValue::Integer(n) => ColumnValue::Integer(*n),
        ColumnValue::Real(n) => ColumnValue::Real(*n),
        ColumnValue::Text(t) => ColumnValue::Text(t.clone()),
        ColumnValue::Blob(b) => ColumnValue::Blob(slice_to_vec(b.as_slice())),
    }
}

/// Copy a column value out of an optional cell: an absent cell becomes
/// `Null`, a present one is copied unchanged.
pub fn get_sql_value(value: Option<&ColumnValue>) -> (r: SqlValue)
    ensures
        (match value {
            Some(v) => r.value@ == v@,
            None => r.value@ is Null,
        }),
{
    match value {
        Some(v) => SqlValue { value: copy_column_value(v) },
        None => SqlValue::default(),
    }
}

/// One deep copy of an attribute value, arrays copied elementwise in order.
#[verifier::loop_isolation(false)]
pub fn copy_variant(variant: &AttributeValue) -> (r: AttributeValue)
    ensures
        r@ == variant@,
    decreases *variant,
{
    match variant {
        AttributeValue::Null => AttributeValue::Null,
        AttributeValue::Empty => AttributeValue::Empty,
        AttributeValue::Text(t) => AttributeValue::Text(t.clone()),
        AttributeValue::Bool(b) => AttributeValue::Bool(*b),
        AttributeValue::I1(n) => AttributeValue::I1(*n),
        AttributeValue::I2(n) => AttributeValue::I2(*n),
        AttributeValue::I4(n) => AttributeValue::I4(*n),
        AttributeValue::I8(n) => AttributeValue::I8(*n),
        AttributeValue::UI1(n) => AttributeValue::UI1(*n),
        AttributeValue::UI2(n) => AttributeValue::UI2(*n),
        AttributeValue::UI4(n) => AttributeValue::UI4(*n),
        AttributeValue::UI8(n) => AttributeValue::UI8(*n),
        AttributeValue::R4(n) => AttributeValue::R4(*n),
        AttributeValue::R8(n) => AttributeValue::R8(*n),
        AttributeValue::Array(elems) => {
            let mut out: Vec<AttributeValue> = Vec::new();
            let n: usize = elems.len();
            for i in 0..n
                invariant
                    n == elems@.len(),
                    out@.len() == i,
                    forall|j: int| 0 <= j < i
                        ==> attr_view(#[trigger] out@[j]) == attr_view(elems@[j]),
            {
                let c = copy_variant(&elems[i]);
                out.push(c);
            }
            proof {
                lemma_attr_views(out@);
                lemma_attr_views(elems@);
                assert(attr_views(out@) =~= attr_views(elems@));
            }
            AttributeValue::Array(out)
        },
        AttributeValue::Object => AttributeValue::Object,
    }
}

/// Copy an attribute value out of an optional cell: an absent cell becomes
/// `Null`, a present one is copied unchanged.
pub fn get_variant_value(variant: Option<&AttributeValue>) -> (r: WmiValue)
    ensures
        (match variant {
            Some(v) => r.value@ == v@,
            None => r.value@ is Null,
        }),
{
    match variant {
        Some(v) => WmiValue { value: copy_variant(v) },
        None => WmiValue::default(),
    }
}

/// The text of an attribute value: its characters for a text attribute,
/// and the empty string for every other variant or an absent cell.
pub fn get_variant_string(variant: Option<&AttributeValue>) -> (r: String)
    ensures
        (match variant {
            Some(v) => (match v@ {
                AttrVal::Text(t) => r@ == t,
                _ => r@ == Seq::<char>::empty(),
            }),
            None => r@ == Seq::<char>::empty(),
        }),
{
    match variant {
        Some(AttributeValue::Text(t)) => t.clone(),
        _ => String::new(),
    }
}

/// Models of one row of column values, in order.
pub open spec fn row_view(row: Seq<ColumnValue>) -> Seq<ColVal> {
    Seq::new(row.len(), |i: int| row[i]@)
}

/// The cell at one ordinal of a modelled row; a column the row lacks is
/// `Null`.
pub open spec fn cell(row: Seq<ColVal>, i: int) -> ColVal {
    if 0 <= i < row.len() {
        row[i]
    } else {
        ColVal::Null
    }
}

} // verus!
