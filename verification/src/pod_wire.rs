//! The SPA POD wire format: how values and parameter objects are laid out in
//! bytes, and how the `Props` objects of the control protocols are read back.
//!
//! Every POD is an eight-byte header (body size, then type, both native
//! little-endian `u32`) followed by its body, padded with zeros to a multiple
//! of eight bytes.

use vstd::prelude::*;
use vstd::bytes::{
    lemma_auto_spec_u32_to_from_le_bytes, lemma_auto_spec_u64_to_from_le_bytes,
    spec_u32_from_le_bytes, spec_u32_to_le_bytes, spec_u64_from_le_bytes, spec_u64_to_le_bytes,
    u32_from_le_bytes, u32_to_le_bytes, u64_from_le_bytes, u64_to_le_bytes,
};
use vstd::string::StringSliceAdditionalSpecFns;
use vstd::utf8::{
    char_is_scalar, char_u32_cast, decode_utf8, encode_scalar, encode_utf8, encode_utf8_decode_utf8, encode_utf8_valid_utf8,
    is_scalar, valid_utf8,
};

use crate::text::{bytes_start_with, str_eq, str_starts_with};
use crate::pod::{Choice, ChoiceEnum, ChoiceFlags, ChoiceValue, Fraction, Id, Object, Property, Rectangle, Value, ValueArray};

verus! {

pub const SPA_TYPE_BOOL: u32 = 2;

pub const SPA_TYPE_ID: u32 = 3;

pub const SPA_TYPE_INT: u32 = 4;

pub const SPA_TYPE_LONG: u32 = 5;

pub const SPA_TYPE_STRING: u32 = 8;

pub const SPA_TYPE_BYTES: u32 = 9;

pub const SPA_TYPE_RECTANGLE: u32 = 10;

pub const SPA_TYPE_FRACTION: u32 = 11;

pub const SPA_TYPE_ARRAY: u32 = 13;

pub const SPA_TYPE_STRUCT: u32 = 14;

pub const SPA_TYPE_OBJECT: u32 = 15;

pub const SPA_TYPE_CHOICE: u32 = 19;

/// Choice kinds as the choice body records them.
pub const SPA_CHOICE_NONE: u32 = 0;

pub const SPA_CHOICE_RANGE: u32 = 1;

pub const SPA_CHOICE_STEP: u32 = 2;

pub const SPA_CHOICE_ENUM: u32 = 3;

pub const SPA_CHOICE_FLAGS: u32 = 4;

/// Largest body that a POD header can describe.
pub const MAX_BODY: usize = 0xffff_ffff;

/// Zero bytes that follow a body of `len` bytes.
pub open spec fn padding(len: nat) -> nat {
    if len % 8 == 0 {
        0
    } else {
        (8 - len % 8) as nat
    }
}

/// `n` zero bytes.
pub open spec fn zeros(n: nat) -> Seq<u8> {
    Seq::new(n, |i: int| 0u8)
}

/// The bytes of one POD of type `pod_type` with body `body`.
pub open spec fn pod_bytes(pod_type: u32, body: Seq<u8>) -> Seq<u8> {
    spec_u32_to_le_bytes(body.len() as u32) + spec_u32_to_le_bytes(pod_type) + body + zeros(
        padding(body.len()),
    )
}

/// A scalar that a POD can hold, alone or as an element of an array or a
/// choice, with a body of fixed size.
pub trait PodScalar: Sized {
    spec fn spec_pod_type() -> u32;

    spec fn spec_size() -> u32;

    spec fn spec_body(self) -> Seq<u8>;

    /// Every value's body takes exactly the type's fixed size.
    proof fn lemma_body_len(self)
        ensures
            self.spec_body().len() == Self::spec_size(),
    ;

    fn pod_type() -> (r: u32)
        ensures
            r == Self::spec_pod_type(),
    ;

    fn size() -> (r: u32)
        ensures
            r == Self::spec_size(),
    ;

    fn push_body(&self, out: &mut Vec<u8>)
        ensures
            final(out)@ == old(out)@ + self.spec_body(),
            self.spec_body().len() == Self::spec_size(),
    ;
}

/// Appends `bytes` to `out`.
fn push_all(out: &mut Vec<u8>, bytes: Vec<u8>)
    ensures
        final(out)@ == old(out)@ + bytes@,
{
    let mut bytes = bytes;
    out.append(&mut bytes);
}

impl PodScalar for bool {
    open spec fn spec_pod_type() -> u32 {
        SPA_TYPE_BOOL
    }

    open spec fn spec_size() -> u32 {
        4
    }

    open spec fn spec_body(self) -> Seq<u8> {
        spec_u32_to_le_bytes(
            if self {
                1u32
            } else {
                0u32
            },
        )
    }


    proof fn lemma_body_len(self) {
        lemma_auto_spec_u32_to_from_le_bytes();
    }
    fn pod_type() -> (r: u32) {
        SPA_TYPE_BOOL
    }

    fn size() -> (r: u32) {
        4
    }

    fn push_body(&self, out: &mut Vec<u8>) {
        proof {
            lemma_auto_spec_u32_to_from_le_bytes();
        }
        push_all(
            out,
            u32_to_le_bytes(
                if *self {
                    1u32
                } else {
                    0u32
                },
            ),
        );
    }
}

impl PodScalar for i32 {
    open spec fn spec_pod_type() -> u32 {
        SPA_TYPE_INT
    }

    open spec fn spec_size() -> u32 {
        4
    }

    open spec fn spec_body(self) -> Seq<u8> {
        spec_u32_to_le_bytes(self as u32)
    }


    proof fn lemma_body_len(self) {
        lemma_auto_spec_u32_to_from_le_bytes();
    }
    fn pod_type() -> (r: u32) {
        SPA_TYPE_INT
    }

    fn size() -> (r: u32) {
        4
    }

    fn push_body(&self, out: &mut Vec<u8>) {
        proof {
            lemma_auto_spec_u32_to_from_le_bytes();
        }
        push_all(out, u32_to_le_bytes(*self as u32));
    }
}

impl PodScalar for i64 {
    open spec fn spec_pod_type() -> u32 {
        SPA_TYPE_LONG
    }

    open spec fn spec_size() -> u32 {
        8
    }

    open spec fn spec_body(self) -> Seq<u8> {
        spec_u64_to_le_bytes(self as u64)
    }


    proof fn lemma_body_len(self) {
        lemma_auto_spec_u64_to_from_le_bytes();
    }
    fn pod_type() -> (r: u32) {
        SPA_TYPE_LONG
    }

    fn size() -> (r: u32) {
        8
    }

    fn push_body(&self, out: &mut Vec<u8>) {
        proof {
            lemma_auto_spec_u64_to_from_le_bytes();
        }
        push_all(out, u64_to_le_bytes(*self as u64));
    }
}

impl PodScalar for Id {
    open spec fn spec_pod_type() -> u32 {
        SPA_TYPE_ID
    }

    open spec fn spec_size() -> u32 {
        4
    }

    open spec fn spec_body(self) -> Seq<u8> {
        spec_u32_to_le_bytes(self.0)
    }


    proof fn lemma_body_len(self) {
        lemma_auto_spec_u32_to_from_le_bytes();
    }
    fn pod_type() -> (r: u32) {
        SPA_TYPE_ID
    }

    fn size() -> (r: u32) {
        4
    }

    fn push_body(&self, out: &mut Vec<u8>) {
        proof {
            lemma_auto_spec_u32_to_from_le_bytes();
        }
        push_all(out, u32_to_le_bytes(self.0));
    }
}

impl PodScalar for Rectangle {
    open spec fn spec_pod_type() -> u32 {
        SPA_TYPE_RECTANGLE
    }

    open spec fn spec_size() -> u32 {
        8
    }

    open spec fn spec_body(self) -> Seq<u8> {
        spec_u32_to_le_bytes(self.width) + spec_u32_to_le_bytes(self.height)
    }


    proof fn lemma_body_len(self) {
        lemma_auto_spec_u32_to_from_le_bytes();
    }
    fn pod_type() -> (r: u32) {
        SPA_TYPE_RECTANGLE
    }

    fn size() -> (r: u32) {
        8
    }

    fn push_body(&self, out: &mut Vec<u8>) {
        proof {
            lemma_auto_spec_u32_to_from_le_bytes();
        }
        push_all(out, u32_to_le_bytes(self.width));
        push_all(out, u32_to_le_bytes(self.height));
        assert(final(out)@ =~= old(out)@ + self.spec_body());
    }
}

impl PodScalar for Fraction {
    open spec fn spec_pod_type() -> u32 {
        SPA_TYPE_FRACTION
    }

    open spec fn spec_size() -> u32 {
        8
    }

    open spec fn spec_body(self) -> Seq<u8> {
        spec_u32_to_le_bytes(self.num) + spec_u32_to_le_bytes(self.denom)
    }


    proof fn lemma_body_len(self) {
        lemma_auto_spec_u32_to_from_le_bytes();
    }
    fn pod_type() -> (r: u32) {
        SPA_TYPE_FRACTION
    }

    fn size() -> (r: u32) {
        8
    }

    fn push_body(&self, out: &mut Vec<u8>) {
        proof {
            lemma_auto_spec_u32_to_from_le_bytes();
        }
        push_all(out, u32_to_le_bytes(self.num));
        push_all(out, u32_to_le_bytes(self.denom));
        assert(final(out)@ =~= old(out)@ + self.spec_body());
    }
}

/// The bodies of `items`, one after the other without padding.
pub open spec fn concat_bodies<T: PodScalar>(items: Seq<T>) -> Seq<u8>
    decreases items.len(),
{
    if items.len() == 0 {
        Seq::empty()
    } else {
        concat_bodies(items.drop_last()) + items.last().spec_body()
    }
}

/// Appends the bodies of `items` to `out`.
fn push_bodies<T: PodScalar>(out: &mut Vec<u8>, items: &[T])
    ensures
        final(out)@ == old(out)@ + concat_bodies(items@),
{
    let mut i: usize = 0;
    while i < items.len()
        invariant
            i <= items@.len(),
            out@ == old(out)@ + concat_bodies(items@.take(i as int)),
        decreases items@.len() - i,
    {
        let ghost before = out@;
        items[i].push_body(out);
        proof {
            assert(items@.take(i + 1).drop_last() =~= items@.take(i as int));
            assert(before + items@[i as int].spec_body() =~= old(out)@ + concat_bodies(
                items@.take(i + 1),
            ));
        }
        i = i + 1;
    }
    assert(items@.take(items@.len() as int) =~= items@);
}

/// The body of an array of `items`: the element header, then the element
/// bodies packed without padding.
pub open spec fn array_body<T: PodScalar>(items: Seq<T>) -> Seq<u8> {
    spec_u32_to_le_bytes(T::spec_size()) + spec_u32_to_le_bytes(T::spec_pod_type())
        + concat_bodies(items)
}

/// The choice kind that the body of `choice` records.
pub open spec fn choice_kind<T>(choice: ChoiceEnum<T>) -> u32 {
    match choice {
        ChoiceEnum::Fixed(_) => SPA_CHOICE_NONE,
        ChoiceEnum::Range { .. } => SPA_CHOICE_RANGE,
        ChoiceEnum::Step { .. } => SPA_CHOICE_STEP,
        ChoiceEnum::Enum { .. } => SPA_CHOICE_ENUM,
        ChoiceEnum::Flags { .. } => SPA_CHOICE_FLAGS,
    }
}

/// The values that a choice body lists, its preferred value first.
pub open spec fn choice_values<T>(choice: ChoiceEnum<T>) -> Seq<T> {
    match choice {
        ChoiceEnum::Fixed(value) => seq![value],
        ChoiceEnum::Range { default, min, max } => seq![default, min, max],
        ChoiceEnum::Step { default, min, max, step } => seq![default, min, max, step],
        ChoiceEnum::Enum { default, alternatives } => seq![default] + alternatives@,
        ChoiceEnum::Flags { default, flags } => seq![default] + flags@,
    }
}

/// The body of a choice: its kind and flags, the element header, then the
/// listed values packed without padding.
pub open spec fn choice_body<T: PodScalar>(choice: Choice<T>) -> Seq<u8> {
    spec_u32_to_le_bytes(choice_kind(choice.1)) + spec_u32_to_le_bytes(choice.0.0)
        + spec_u32_to_le_bytes(T::spec_size()) + spec_u32_to_le_bytes(T::spec_pod_type())
        + concat_bodies(choice_values(choice.1))
}

/// The body of the homogeneous array `array`.
pub open spec fn value_array_body(array: ValueArray) -> Seq<u8> {
    match array {
        ValueArray::Bool(items) => array_body(items@),
        ValueArray::Id(items) => array_body(items@),
        ValueArray::Int(items) => array_body(items@),
        ValueArray::Long(items) => array_body(items@),
        ValueArray::Rectangle(items) => array_body(items@),
        ValueArray::Fraction(items) => array_body(items@),
    }
}

/// The body of the choice `choice`.
pub open spec fn choice_value_body(choice: ChoiceValue) -> Seq<u8> {
    match choice {
        ChoiceValue::Bool(c) => choice_body(c),
        ChoiceValue::Int(c) => choice_body(c),
        ChoiceValue::Long(c) => choice_body(c),
        ChoiceValue::Id(c) => choice_body(c),
        ChoiceValue::Rectangle(c) => choice_body(c),
        ChoiceValue::Fraction(c) => choice_body(c),
    }
}

/// The POD type that carries `value`.
pub open spec fn value_type(value: Value) -> u32 {
    match value {
        Value::Bool(_) => SPA_TYPE_BOOL,
        Value::Id(_) => SPA_TYPE_ID,
        Value::Int(_) => SPA_TYPE_INT,
        Value::Long(_) => SPA_TYPE_LONG,
        Value::String(_) => SPA_TYPE_STRING,
        Value::Bytes(_) => SPA_TYPE_BYTES,
        Value::Rectangle(_) => SPA_TYPE_RECTANGLE,
        Value::Fraction(_) => SPA_TYPE_FRACTION,
        Value::ValueArray(_) => SPA_TYPE_ARRAY,
        Value::Choice(_) => SPA_TYPE_CHOICE,
        Value::Struct(_) => SPA_TYPE_STRUCT,
    }
}

/// The body of the POD that carries `value`. A string is its UTF-8 bytes
/// and a terminating zero; a struct is the PODs of its fields in order.
pub open spec fn value_body(value: Value) -> Seq<u8>
    decreases value,
{
    match value {
        Value::Bool(b) => b.spec_body(),
        Value::Id(id) => id.spec_body(),
        Value::Int(x) => x.spec_body(),
        Value::Long(x) => x.spec_body(),
        Value::String(s) => encode_utf8(s@).push(0u8),
        Value::Bytes(bytes) => bytes@,
        Value::Rectangle(r) => r.spec_body(),
        Value::Fraction(f) => f.spec_body(),
        Value::ValueArray(array) => value_array_body(array),
        Value::Choice(choice) => choice_value_body(choice),
        Value::Struct(fields) => struct_body(fields@),
    }
}

/// The PODs of `fields`, one after the other.
pub open spec fn struct_body(fields: Seq<Value>) -> Seq<u8>
    decreases fields,
{
    if fields.len() == 0 {
        Seq::empty()
    } else {
        struct_body(fields.drop_last()) + pod_bytes(
            value_type(fields.last()),
            value_body(fields.last()),
        )
    }
}

/// The POD that carries `value`.
pub open spec fn value_pod(value: Value) -> Seq<u8> {
    pod_bytes(value_type(value), value_body(value))
}

/// The properties of an object: each is its key, its flags and the POD of
/// its value.
pub open spec fn properties_bytes(properties: Seq<Property>) -> Seq<u8>
    decreases properties.len(),
{
    if properties.len() == 0 {
        Seq::empty()
    } else {
        properties_bytes(properties.drop_last()) + spec_u32_to_le_bytes(properties.last().key)
            + spec_u32_to_le_bytes(properties.last().flags.0) + value_pod(properties.last().value)
    }
}

/// The body of an object POD: the object type, the parameter identifier,
/// then the properties.
pub open spec fn object_body(object: Object) -> Seq<u8> {
    spec_u32_to_le_bytes(object.type_) + spec_u32_to_le_bytes(object.id) + properties_bytes(
        object.properties@,
    )
}

/// The POD that carries `object`.
pub open spec fn object_pod(object: Object) -> Seq<u8> {
    pod_bytes(SPA_TYPE_OBJECT, object_body(object))
}

/// Appends `bytes` to `out`.
pub(crate) fn push_slice(out: &mut Vec<u8>, bytes: &[u8])
    ensures
        final(out)@ == old(out)@ + bytes@,
{
    let mut i: usize = 0;
    while i < bytes.len()
        invariant
            i <= bytes@.len(),
            out@ == old(out)@ + bytes@.take(i as int),
        decreases bytes@.len() - i,
    {
        out.push(bytes[i]);
        assert(bytes@.take(i + 1) =~= bytes@.take(i as int).push(bytes@[i as int]));
        i = i + 1;
    }
    assert(bytes@.take(bytes@.len() as int) =~= bytes@);
}

/// Appends the zeros that follow a body of `len` bytes.
fn push_padding(out: &mut Vec<u8>, len: usize)
    ensures
        final(out)@ == old(out)@ + zeros(padding(len as nat)),
{
    let count: usize = if len % 8 == 0 {
        0
    } else {
        8 - len % 8
    };
    let mut i: usize = 0;
    while i < count
        invariant
            i <= count,
            count == padding(len as nat),
            out@ == old(out)@ + zeros(i as nat),
        decreases count - i,
    {
        out.push(0u8);
        assert(zeros((i + 1) as nat) =~= zeros(i as nat).push(0u8));
        i = i + 1;
    }
}

/// Appends the POD of type `pod_type` with body `body`.
pub(crate) fn push_pod(out: &mut Vec<u8>, pod_type: u32, body: Vec<u8>)
    requires
        body@.len() <= MAX_BODY,
    ensures
        final(out)@ == old(out)@ + pod_bytes(pod_type, body@),
{
    let len = body.len();
    push_all(out, u32_to_le_bytes(len as u32));
    push_all(out, u32_to_le_bytes(pod_type));
    push_all(out, body);
    push_padding(out, len);
    assert(final(out)@ =~= old(out)@ + pod_bytes(pod_type, body@));
}

/// The bodies of `a + b` are those of `a` followed by those of `b`.
proof fn lemma_concat_bodies_append<T: PodScalar>(a: Seq<T>, b: Seq<T>)
    ensures
        concat_bodies(a + b) == concat_bodies(a) + concat_bodies(b),
    decreases b.len(),
{
    if b.len() == 0 {
        assert(a + b =~= a);
        assert(concat_bodies(a) + concat_bodies(b) =~= concat_bodies(a));
    } else {
        assert((a + b).drop_last() =~= a + b.drop_last());
        lemma_concat_bodies_append(a, b.drop_last());
        assert(concat_bodies(a + b) =~= concat_bodies(a) + concat_bodies(b));
    }
}

/// The body of one value alone.
proof fn lemma_concat_bodies_single<T: PodScalar>(value: T)
    ensures
        concat_bodies(seq![value]) == value.spec_body(),
{
    reveal_with_fuel(concat_bodies, 2);
    assert(seq![value].drop_last() =~= Seq::<T>::empty());
    assert(concat_bodies(seq![value]) =~= value.spec_body());
}

/// The body of the value at position `index` of a choice body whose values
/// take `size` bytes each.
pub open spec fn choice_slot(body: Seq<u8>, size: int, index: int) -> Seq<u8> {
    body.subrange(16 + index * size, 16 + (index + 1) * size)
}

/// The bodies of three values packed one after the other.
proof fn lemma_three_bodies<T: PodScalar>(a: T, b: T, c: T)
    ensures
        concat_bodies(seq![a, b, c]) == a.spec_body() + b.spec_body() + c.spec_body(),
{
    lemma_concat_bodies_single(a);
    lemma_concat_bodies_append(seq![a], seq![b]);
    lemma_concat_bodies_single(b);
    lemma_concat_bodies_append(seq![a, b], seq![c]);
    lemma_concat_bodies_single(c);
    assert(seq![a] + seq![b] =~= seq![a, b]);
    assert(seq![a, b] + seq![c] =~= seq![a, b, c]);
}

/// How a choice lays out its values in SPA order: its kind first, then,
/// after the flags and the element header, the preferred value followed by
/// a range's minimum and maximum, a step range's minimum, maximum and step,
/// or an enumeration's alternatives.
pub proof fn lemma_choice_layout<T: PodScalar>(flags: ChoiceFlags, choice: ChoiceEnum<T>)
    ensures
        ({
            let body = choice_body(Choice(flags, choice));
            let size = T::spec_size() as int;
            &&& body.subrange(4, 8) == spec_u32_to_le_bytes(flags.0)
            &&& match choice {
                ChoiceEnum::Fixed(value) => {
                    &&& body.subrange(0, 4) == spec_u32_to_le_bytes(SPA_CHOICE_NONE)
                    &&& body.len() == 16 + size
                    &&& choice_slot(body, size, 0) == value.spec_body()
                },
                ChoiceEnum::Range { default, min, max } => {
                    &&& body.subrange(0, 4) == spec_u32_to_le_bytes(SPA_CHOICE_RANGE)
                    &&& body.len() == 16 + 3 * size
                    &&& choice_slot(body, size, 0) == default.spec_body()
                    &&& choice_slot(body, size, 1) == min.spec_body()
                    &&& choice_slot(body, size, 2) == max.spec_body()
                },
                ChoiceEnum::Step { default, min, max, step } => {
                    &&& body.subrange(0, 4) == spec_u32_to_le_bytes(SPA_CHOICE_STEP)
                    &&& body.len() == 16 + 4 * size
                    &&& choice_slot(body, size, 0) == default.spec_body()
                    &&& choice_slot(body, size, 1) == min.spec_body()
                    &&& choice_slot(body, size, 2) == max.spec_body()
                    &&& choice_slot(body, size, 3) == step.spec_body()
                },
                ChoiceEnum::Enum { default, alternatives } => {
                    &&& body.subrange(0, 4) == spec_u32_to_le_bytes(SPA_CHOICE_ENUM)
                    &&& choice_slot(body, size, 0) == default.spec_body()
                    &&& body.subrange(16 + size, body.len() as int) == concat_bodies(alternatives@)
                },
                ChoiceEnum::Flags { default, flags } => {
                    &&& body.subrange(0, 4) == spec_u32_to_le_bytes(SPA_CHOICE_FLAGS)
                    &&& choice_slot(body, size, 0) == default.spec_body()
                    &&& body.subrange(16 + size, body.len() as int) == concat_bodies(flags@)
                },
            }
        }),
{
    lemma_auto_spec_u32_to_from_le_bytes();
    let body = choice_body(Choice(flags, choice));
    let size = T::spec_size() as int;
    let head = spec_u32_to_le_bytes(choice_kind(choice)) + spec_u32_to_le_bytes(flags.0)
        + spec_u32_to_le_bytes(T::spec_size()) + spec_u32_to_le_bytes(T::spec_pod_type());
    assert(head.len() == 16);
    assert(body.subrange(4, 8) =~= spec_u32_to_le_bytes(flags.0));
    assert(body.subrange(0, 4) =~= spec_u32_to_le_bytes(choice_kind(choice)));
    match choice {
        ChoiceEnum::Fixed(value) => {
            value.lemma_body_len();
            lemma_concat_bodies_single(value);
            assert(choice_slot(body, size, 0) =~= value.spec_body());
        },
        ChoiceEnum::Range { default, min, max } => {
            default.lemma_body_len();
            min.lemma_body_len();
            max.lemma_body_len();
            lemma_three_bodies(default, min, max);
            assert(choice_slot(body, size, 0) =~= default.spec_body());
            assert(choice_slot(body, size, 1) =~= min.spec_body());
            assert(choice_slot(body, size, 2) =~= max.spec_body());
        },
        ChoiceEnum::Step { default, min, max, step } => {
            default.lemma_body_len();
            min.lemma_body_len();
            max.lemma_body_len();
            step.lemma_body_len();
            lemma_three_bodies(default, min, max);
            lemma_concat_bodies_append(seq![default, min, max], seq![step]);
            lemma_concat_bodies_single(step);
            assert(seq![default, min, max] + seq![step] =~= seq![default, min, max, step]);
            assert(choice_slot(body, size, 0) =~= default.spec_body());
            assert(choice_slot(body, size, 1) =~= min.spec_body());
            assert(choice_slot(body, size, 2) =~= max.spec_body());
            assert(choice_slot(body, size, 3) =~= step.spec_body());
        },
        ChoiceEnum::Enum { default, alternatives } => {
            default.lemma_body_len();
            lemma_concat_bodies_append(seq![default], alternatives@);
            lemma_concat_bodies_single(default);
            assert(choice_slot(body, size, 0) =~= default.spec_body());
            assert(body.subrange(16 + size, body.len() as int) =~= concat_bodies(alternatives@));
        },
        ChoiceEnum::Flags { default, flags: values } => {
            default.lemma_body_len();
            lemma_concat_bodies_append(seq![default], values@);
            lemma_concat_bodies_single(default);
            assert(choice_slot(body, size, 0) =~= default.spec_body());
            assert(body.subrange(16 + size, body.len() as int) =~= concat_bodies(values@));
        },
    }
}

/// Appends the body of an array of `items`.
fn push_array_body<T: PodScalar>(out: &mut Vec<u8>, items: &[T])
    ensures
        final(out)@ == old(out)@ + array_body::<T>(items@),
{
    proof {
        lemma_auto_spec_u32_to_from_le_bytes();
    }
    push_all(out, u32_to_le_bytes(T::size()));
    push_all(out, u32_to_le_bytes(T::pod_type()));
    push_bodies(out, items);
    assert(final(out)@ =~= old(out)@ + array_body::<T>(items@));
}

/// Appends the values that the body of `choice` lists.
fn push_choice_values<T: PodScalar>(out: &mut Vec<u8>, choice: &ChoiceEnum<T>)
    ensures
        final(out)@ == old(out)@ + concat_bodies(choice_values(*choice)),
{
    match choice {
        ChoiceEnum::Fixed(value) => {
            proof {
                lemma_concat_bodies_single(*value);
            }
            value.push_body(out);
        },
        ChoiceEnum::Range { default, min, max } => {
            proof {
                lemma_concat_bodies_single(*default);
                lemma_concat_bodies_append(seq![*default], seq![*min]);
                lemma_concat_bodies_single(*min);
                lemma_concat_bodies_append(seq![*default, *min], seq![*max]);
                lemma_concat_bodies_single(*max);
                assert(seq![*default] + seq![*min] =~= seq![*default, *min]);
                assert(seq![*default, *min] + seq![*max] =~= seq![*default, *min, *max]);
            }
            default.push_body(out);
            min.push_body(out);
            max.push_body(out);
            assert(final(out)@ =~= old(out)@ + concat_bodies(choice_values(*choice)));
        },
        ChoiceEnum::Step { default, min, max, step } => {
            proof {
                lemma_concat_bodies_single(*default);
                lemma_concat_bodies_append(seq![*default], seq![*min]);
                lemma_concat_bodies_single(*min);
                lemma_concat_bodies_append(seq![*default, *min], seq![*max]);
                lemma_concat_bodies_single(*max);
                lemma_concat_bodies_append(seq![*default, *min, *max], seq![*step]);
                lemma_concat_bodies_single(*step);
                assert(seq![*default] + seq![*min] =~= seq![*default, *min]);
                assert(seq![*default, *min] + seq![*max] =~= seq![*default, *min, *max]);
                assert(seq![*default, *min, *max] + seq![*step] =~= seq![
                    *default,
                    *min,
                    *max,
                    *step,
                ]);
            }
            default.push_body(out);
            min.push_body(out);
            max.push_body(out);
            step.push_body(out);
            assert(final(out)@ =~= old(out)@ + concat_bodies(choice_values(*choice)));
        },
        ChoiceEnum::Enum { default, alternatives } => {
            proof {
                lemma_concat_bodies_single(*default);
                lemma_concat_bodies_append(seq![*default], alternatives@);
            }
            default.push_body(out);
            push_bodies(out, alternatives.as_slice());
            assert(final(out)@ =~= old(out)@ + concat_bodies(choice_values(*choice)));
        },
        ChoiceEnum::Flags { default, flags } => {
            proof {
                lemma_concat_bodies_single(*default);
                lemma_concat_bodies_append(seq![*default], flags@);
            }
            default.push_body(out);
            push_bodies(out, flags.as_slice());
            assert(final(out)@ =~= old(out)@ + concat_bodies(choice_values(*choice)));
        },
    }
}

/// Appends the body of `choice`.
fn push_choice_body<T: PodScalar>(out: &mut Vec<u8>, choice: &Choice<T>)
    ensures
        final(out)@ == old(out)@ + choice_body(*choice),
{
    let kind: u32 = match &choice.1 {
        ChoiceEnum::Fixed(_) => SPA_CHOICE_NONE,
        ChoiceEnum::Range { .. } => SPA_CHOICE_RANGE,
        ChoiceEnum::Step { .. } => SPA_CHOICE_STEP,
        ChoiceEnum::Enum { .. } => SPA_CHOICE_ENUM,
        ChoiceEnum::Flags { .. } => SPA_CHOICE_FLAGS,
    };
    push_all(out, u32_to_le_bytes(kind));
    push_all(out, u32_to_le_bytes(choice.0.0));
    push_all(out, u32_to_le_bytes(T::size()));
    push_all(out, u32_to_le_bytes(T::pod_type()));
    push_choice_values(out, &choice.1);
    assert(final(out)@ =~= old(out)@ + choice_body(*choice));
}

/// The POD type that carries `value`.
pub fn pod_type_of(value: &Value) -> (r: u32)
    ensures
        r == value_type(*value),
{
    match value {
        Value::Bool(_) => SPA_TYPE_BOOL,
        Value::Id(_) => SPA_TYPE_ID,
        Value::Int(_) => SPA_TYPE_INT,
        Value::Long(_) => SPA_TYPE_LONG,
        Value::String(_) => SPA_TYPE_STRING,
        Value::Bytes(_) => SPA_TYPE_BYTES,
        Value::Rectangle(_) => SPA_TYPE_RECTANGLE,
        Value::Fraction(_) => SPA_TYPE_FRACTION,
        Value::ValueArray(_) => SPA_TYPE_ARRAY,
        Value::Choice(_) => SPA_TYPE_CHOICE,
        Value::Struct(_) => SPA_TYPE_STRUCT,
    }
}

/// A struct body holds the body of each of its fields.
proof fn lemma_struct_body_holds_field(fields: Seq<Value>, i: int)
    requires
        0 <= i < fields.len(),
    ensures
        struct_body(fields).len() >= value_body(fields[i]).len(),
    decreases fields.len(),
{
    if i < fields.len() - 1 {
        lemma_struct_body_holds_field(fields.drop_last(), i);
    }
}

/// Appends the POD of `value`, when every body in it fits a POD header.
///
/// Returns whether it did; on `false`, `out` is unchanged.
pub fn push_value(out: &mut Vec<u8>, value: &Value) -> (r: bool)
    ensures
        r == (value_body(*value).len() <= MAX_BODY),
        r ==> final(out)@ == old(out)@ + value_pod(*value),
        !r ==> final(out)@ == old(out)@,
    decreases value,
{
    proof {
        lemma_auto_spec_u32_to_from_le_bytes();
        lemma_auto_spec_u64_to_from_le_bytes();
    }
    let mut body: Vec<u8> = Vec::new();
    match value {
        Value::Bool(b) => b.push_body(&mut body),
        Value::Id(id) => id.push_body(&mut body),
        Value::Int(x) => x.push_body(&mut body),
        Value::Long(x) => x.push_body(&mut body),
        Value::String(s) => {
            push_slice(&mut body, s.as_str().as_bytes());
            body.push(0u8);
        },
        Value::Bytes(bytes) => push_slice(&mut body, bytes.as_slice()),
        Value::Rectangle(r) => r.push_body(&mut body),
        Value::Fraction(f) => f.push_body(&mut body),
        Value::ValueArray(array) => match array {
            ValueArray::Bool(items) => push_array_body(&mut body, items.as_slice()),
            ValueArray::Id(items) => push_array_body(&mut body, items.as_slice()),
            ValueArray::Int(items) => push_array_body(&mut body, items.as_slice()),
            ValueArray::Long(items) => push_array_body(&mut body, items.as_slice()),
            ValueArray::Rectangle(items) => push_array_body(&mut body, items.as_slice()),
            ValueArray::Fraction(items) => push_array_body(&mut body, items.as_slice()),
        },
        Value::Choice(choice) => match choice {
            ChoiceValue::Bool(c) => push_choice_body(&mut body, c),
            ChoiceValue::Int(c) => push_choice_body(&mut body, c),
            ChoiceValue::Long(c) => push_choice_body(&mut body, c),
            ChoiceValue::Id(c) => push_choice_body(&mut body, c),
            ChoiceValue::Rectangle(c) => push_choice_body(&mut body, c),
            ChoiceValue::Fraction(c) => push_choice_body(&mut body, c),
        },
        Value::Struct(fields) => {
            let mut i: usize = 0;
            while i < fields.len()
                invariant
                    i <= fields@.len(),
                    body@ == struct_body(fields@.take(i as int)),
                    *value == Value::Struct(*fields),
                decreases fields@.len() - i,
            {
                proof {
                    assert(decreases_to!(*value => (*value)->Struct_0));
                    assert(decreases_to!(*value => *fields));
                    assert(decreases_to!(*fields => fields@));
                    assert(decreases_to!(fields@ => fields@[i as int]));
                }
                let pushed = push_value(&mut body, &fields[i]);
                if !pushed {
                    proof {
                        lemma_struct_body_holds_field(fields@, i as int);
                    }
                    return false;
                }
                proof {
                    assert(fields@.take(i + 1).drop_last() =~= fields@.take(i as int));
                }
                i = i + 1;
            }
            assert(fields@.take(fields@.len() as int) =~= fields@);
        },
    }
    assert(body@ =~= value_body(*value));
    if body.len() > MAX_BODY {
        return false;
    }
    push_pod(out, pod_type_of(value), body);
    true
}

/// A properties list holds the body of each property value.
proof fn lemma_properties_hold_value(properties: Seq<Property>, i: int)
    requires
        0 <= i < properties.len(),
    ensures
        properties_bytes(properties).len() >= value_body(properties[i].value).len(),
    decreases properties.len(),
{
    if i < properties.len() - 1 {
        lemma_properties_hold_value(properties.drop_last(), i);
    }
}

/// The POD bytes of `object`, or `None` when a body in it is too large for
/// a POD header.
pub fn serialize_object(object: &Object) -> (r: Option<Vec<u8>>)
    ensures
        r is Some <==> object_body(*object).len() <= MAX_BODY,
        r matches Some(bytes) ==> bytes@ == object_pod(*object),
{
    proof {
        lemma_auto_spec_u32_to_from_le_bytes();
    }
    let mut body: Vec<u8> = Vec::new();
    push_all(&mut body, u32_to_le_bytes(object.type_));
    push_all(&mut body, u32_to_le_bytes(object.id));
    let ghost head = body@;
    let mut i: usize = 0;
    while i < object.properties.len()
        invariant
            i <= object.properties@.len(),
            head == spec_u32_to_le_bytes(object.type_) + spec_u32_to_le_bytes(object.id),
            body@ == head + properties_bytes(object.properties@.take(i as int)),
        decreases object.properties@.len() - i,
    {
        let property = &object.properties[i];
        push_all(&mut body, u32_to_le_bytes(property.key));
        push_all(&mut body, u32_to_le_bytes(property.flags.0));
        let pushed = push_value(&mut body, &property.value);
        if !pushed {
            proof {
                lemma_properties_hold_value(object.properties@, i as int);
                assert(object_body(*object).len() >= properties_bytes(object.properties@).len());
            }
            return None;
        }
        proof {
            assert(object.properties@.take(i + 1).drop_last() =~= object.properties@.take(
                i as int,
            ));
            assert(body@ =~= head + properties_bytes(object.properties@.take(i + 1)));
        }
        i = i + 1;
    }
    assert(object.properties@.take(object.properties@.len() as int) =~= object.properties@);
    assert(body@ =~= object_body(*object));
    if body.len() > MAX_BODY {
        return None;
    }
    let mut out: Vec<u8> = Vec::new();
    push_pod(&mut out, SPA_TYPE_OBJECT, body);
    assert(out@ =~= object_pod(*object));
    Some(out)
}

/// A field of a struct POD or a property value as this library reads it:
/// an `Id`, an `Int`, a `Long` or a `String`, or the type of any other POD.
#[derive(Debug, PartialEq, Eq)]
pub enum PodField {
    Id(u32),
    Int(i32),
    Long(i64),
    String(String),
    Other(u32),
}

/// The model of a [`PodField`], with a string as its characters.
pub enum PodFieldView {
    Id(u32),
    Int(i32),
    Long(i64),
    String(Seq<char>),
    Other(u32),
}

impl View for PodField {
    type V = PodFieldView;

    open spec fn view(&self) -> PodFieldView {
        match self {
            PodField::Id(x) => PodFieldView::Id(*x),
            PodField::Int(x) => PodFieldView::Int(*x),
            PodField::Long(x) => PodFieldView::Long(*x),
            PodField::String(s) => PodFieldView::String(s@),
            PodField::Other(t) => PodFieldView::Other(*t),
        }
    }
}

/// The models of `fields`, in order.
pub open spec fn fields_view(fields: Seq<PodField>) -> Seq<PodFieldView> {
    fields.map_values(|field: PodField| field@)
}

/// The value of one property as a `Props` object carries it: a struct of
/// fields, or a single field.
pub enum PropValueView {
    Struct(Seq<PodFieldView>),
    Field(PodFieldView),
}

/// A decoded parameter object: its type, its identifier, and each property
/// as its key and value.
pub struct ObjectView {
    pub object_type: u32,
    pub id: u32,
    pub properties: Seq<(u32, PropValueView)>,
}

/// The little-endian `u32` at `offset` in `bytes`.
pub open spec fn u32_at(bytes: Seq<u8>, offset: int) -> u32 {
    spec_u32_from_le_bytes(bytes.subrange(offset, offset + 4))
}

/// Whether `body` is the body of a string POD: UTF-8 bytes without a zero,
/// then one terminating zero.
pub open spec fn string_body_valid(body: Seq<u8>) -> bool {
    &&& body.len() >= 1
    &&& body.last() == 0u8
    &&& !body.drop_last().contains(0u8)
    &&& valid_utf8(body.drop_last())
}

/// The field that a POD of type `pod_type` with body `body` carries, or
/// `None` when an `Id`, `Int`, `Long` or `String` body is malformed.
pub open spec fn parse_field(pod_type: u32, body: Seq<u8>) -> Option<PodFieldView> {
    if pod_type == SPA_TYPE_ID {
        if body.len() == 4 {
            Some(PodFieldView::Id(u32_at(body, 0)))
        } else {
            None
        }
    } else if pod_type == SPA_TYPE_INT {
        if body.len() == 4 {
            Some(PodFieldView::Int(u32_at(body, 0) as i32))
        } else {
            None
        }
    } else if pod_type == SPA_TYPE_LONG {
        if body.len() == 8 {
            Some(PodFieldView::Long(spec_u64_from_le_bytes(body) as i64))
        } else {
            None
        }
    } else if pod_type == SPA_TYPE_STRING {
        if string_body_valid(body) {
            Some(PodFieldView::String(decode_utf8(body.drop_last())))
        } else {
            None
        }
    } else {
        Some(PodFieldView::Other(pod_type))
    }
}

/// The header of the POD at the front of `bytes` (body size and type) and
/// the length of the POD with its padding, when all of it is in `bytes`.
pub open spec fn pod_extent(bytes: Seq<u8>) -> Option<(u32, u32, nat)> {
    if bytes.len() < 8 {
        None
    } else {
        let size = u32_at(bytes, 0);
        let total = 8 + size + padding(size as nat);
        if total <= bytes.len() {
            Some((size, u32_at(bytes, 4), total as nat))
        } else {
            None
        }
    }
}

/// The fields of the PODs that fill `bytes` one after the other.
pub open spec fn parse_fields(bytes: Seq<u8>) -> Option<Seq<PodFieldView>>
    decreases bytes.len(),
{
    if bytes.len() == 0 {
        Some(Seq::empty())
    } else {
        match pod_extent(bytes) {
            None => None,
            Some((size, pod_type, total)) => match parse_field(
                pod_type,
                bytes.subrange(8, 8 + size),
            ) {
                None => None,
                Some(field) => match parse_fields(bytes.subrange(total as int, bytes.len() as int)) {
                    None => None,
                    Some(rest) => Some(seq![field] + rest),
                },
            },
        }
    }
}

/// The value of a property whose POD has type `pod_type` and body `body`.
pub open spec fn parse_prop_value(pod_type: u32, body: Seq<u8>) -> Option<PropValueView> {
    if pod_type == SPA_TYPE_STRUCT {
        match parse_fields(body) {
            Some(fields) => Some(PropValueView::Struct(fields)),
            None => None,
        }
    } else {
        match parse_field(pod_type, body) {
            Some(field) => Some(PropValueView::Field(field)),
            None => None,
        }
    }
}

/// The properties that fill `bytes`: each a key, flags, and a value POD.
pub open spec fn parse_properties(bytes: Seq<u8>) -> Option<Seq<(u32, PropValueView)>>
    decreases bytes.len(),
{
    if bytes.len() == 0 {
        Some(Seq::empty())
    } else if bytes.len() < 8 {
        None
    } else {
        match pod_extent(bytes.subrange(8, bytes.len() as int)) {
            None => None,
            Some((size, pod_type, total)) => match parse_prop_value(
                pod_type,
                bytes.subrange(16, 16 + size),
            ) {
                None => None,
                Some(value) => match parse_properties(
                    bytes.subrange(8 + total as int, bytes.len() as int),
                ) {
                    None => None,
                    Some(rest) => Some(seq![(u32_at(bytes, 0), value)] + rest),
                },
            },
        }
    }
}

/// The object that the POD at the front of `bytes` carries, or `None` when
/// it is no object or is malformed.
pub open spec fn parse_object(bytes: Seq<u8>) -> Option<ObjectView> {
    if bytes.len() < 8 {
        None
    } else {
        let size = u32_at(bytes, 0);
        if u32_at(bytes, 4) != SPA_TYPE_OBJECT || size < 8 || 8 + size > bytes.len() {
            None
        } else {
            let body = bytes.subrange(8, 8 + size);
            match parse_properties(body.subrange(8, size as int)) {
                Some(properties) => Some(
                    ObjectView { object_type: u32_at(body, 0), id: u32_at(body, 4), properties },
                ),
                None => None,
            }
        }
    }
}

/// Calls `core::str::from_utf8`, which returns the string slice of `bytes`
/// when they are UTF-8 and an error otherwise; the error is dropped.
#[verifier::external_body]
fn str_from_utf8(bytes: &[u8]) -> (r: Option<&str>)
    ensures
        r is Some <==> valid_utf8(bytes@),
        r matches Some(s) ==> s.spec_bytes() == bytes@,
{
    core::str::from_utf8(bytes).ok()
}

/// The little-endian `u32` at `offset` in `bytes`.
pub(crate) fn read_u32(bytes: &[u8], offset: usize) -> (r: u32)
    requires
        offset + 4 <= bytes@.len(),
    ensures
        r == u32_at(bytes@, offset as int),
{
    let len = bytes.len();
    assert(offset + 4 <= len);
    u32_from_le_bytes(&bytes[offset..offset + 4])
}

/// Reads the field of a POD of type `pod_type` with body `body`.
fn read_field(pod_type: u32, body: &[u8]) -> (r: Option<PodField>)
    ensures
        match r {
            Some(field) => parse_field(pod_type, body@) == Some(field@),
            None => parse_field(pod_type, body@) is None,
        },
{
    if pod_type == SPA_TYPE_ID {
        if body.len() != 4 {
            return None;
        }
        Some(PodField::Id(read_u32(body, 0)))
    } else if pod_type == SPA_TYPE_INT {
        if body.len() != 4 {
            return None;
        }
        let raw = read_u32(body, 0);
        Some(PodField::Int(#[verifier::truncate] (raw as i32)))
    } else if pod_type == SPA_TYPE_LONG {
        if body.len() != 8 {
            return None;
        }
        let raw = u64_from_le_bytes(body);
        Some(PodField::Long(#[verifier::truncate] (raw as i64)))
    } else if pod_type == SPA_TYPE_STRING {
        let len = body.len();
        if len == 0 {
            return None;
        }
        if body[len - 1] != 0 {
            return None;
        }
        let payload = &body[0..len - 1];
        assert(payload@ =~= body@.drop_last());
        let mut i: usize = 0;
        while i < payload.len()
            invariant
                i <= payload@.len(),
                pod_type == SPA_TYPE_STRING,
                body@.len() >= 1,
                payload@ == body@.drop_last(),
                forall|j: int| 0 <= j < i ==> payload@[j] != 0u8,
            decreases payload@.len() - i,
        {
            if payload[i] == 0 {
                assert(body@.drop_last()[i as int] == 0u8);
                assert(body@.drop_last().contains(0u8));
                return None;
            }
            i = i + 1;
        }
        assert(!body@.drop_last().contains(0u8));
        match str_from_utf8(payload) {
            None => None,
            Some(text) => {
                proof {
                    encode_utf8_decode_utf8(text@);
                }
                Some(PodField::String(text.to_owned()))
            },
        }
    } else {
        Some(PodField::Other(pod_type))
    }
}

/// `Some(prefix + rest)` for `Some(rest)`, and `None` for `None`.
pub open spec fn prepend<T>(prefix: Seq<T>, rest: Option<Seq<T>>) -> Option<Seq<T>> {
    match rest {
        Some(rest) => Some(prefix + rest),
        None => None,
    }
}

/// Reads the fields of the PODs that fill `bytes[start..end]`.
fn read_fields(bytes: &[u8], start: usize, end: usize) -> (r: Option<Vec<PodField>>)
    requires
        start <= end <= bytes@.len(),
    ensures
        match r {
            Some(fields) => parse_fields(bytes@.subrange(start as int, end as int)) == Some(
                fields_view(fields@),
            ),
            None => parse_fields(bytes@.subrange(start as int, end as int)) is None,
        },
{
    let mut out: Vec<PodField> = Vec::new();
    let mut pos = start;
    assert(fields_view(out@) =~= Seq::<PodFieldView>::empty());
    assert(bytes@.subrange(start as int, end as int) =~= bytes@.subrange(pos as int, end as int));
    while pos < end
        invariant
            start <= pos <= end <= bytes@.len(),
            parse_fields(bytes@.subrange(start as int, end as int)) == prepend(
                fields_view(out@),
                parse_fields(bytes@.subrange(pos as int, end as int)),
            ),
        decreases end - pos,
    {
        let ghost rest = bytes@.subrange(pos as int, end as int);
        if end - pos < 8 {
            return None;
        }
        let size = read_u32(bytes, pos);
        let pod_type = read_u32(bytes, pos + 4);
        assert(rest.subrange(0, 4) =~= bytes@.subrange(pos as int, pos + 4));
        assert(rest.subrange(4, 8) =~= bytes@.subrange(pos + 4, pos + 8));
        let pad: u64 = if size % 8 == 0 {
            0
        } else {
            8 - (size % 8) as u64
        };
        let total: u64 = 8 + size as u64 + pad;
        if total > (end - pos) as u64 {
            return None;
        }
        let body_start = pos + 8;
        let body_end = body_start + size as usize;
        let field = match read_field(pod_type, &bytes[body_start..body_end]) {
            Some(field) => field,
            None => {
                assert(rest.subrange(8, 8 + size) =~= bytes@.subrange(
                    body_start as int,
                    body_end as int,
                ));
                return None;
            },
        };
        assert(rest.subrange(8, 8 + size) =~= bytes@.subrange(body_start as int, body_end as int));
        let ghost before = out@;
        out.push(field);
        let next = pos + total as usize;
        assert(rest.subrange(total as int, rest.len() as int) =~= bytes@.subrange(
            next as int,
            end as int,
        ));
        assert(fields_view(out@) =~= fields_view(before) + seq![field@]);
        assert(fields_view(before) + (seq![field@] + Seq::empty()) =~= fields_view(out@));
        proof {
            let tail = parse_fields(bytes@.subrange(next as int, end as int));
            if tail is Some {
                assert(fields_view(before) + (seq![field@] + tail->0) =~= fields_view(out@)
                    + tail->0);
            }
        }
        pos = next;
    }
    assert(fields_view(out@) + Seq::empty() =~= fields_view(out@));
    Some(out)
}

/// The value of one property of a decoded object.
#[derive(Debug, PartialEq, Eq)]
pub enum PropValue {
    Struct(Vec<PodField>),
    Field(PodField),
}

impl View for PropValue {
    type V = PropValueView;

    open spec fn view(&self) -> PropValueView {
        match self {
            PropValue::Struct(fields) => PropValueView::Struct(fields_view(fields@)),
            PropValue::Field(field) => PropValueView::Field(field@),
        }
    }
}

/// The models of decoded properties, in order.
pub open spec fn properties_view(properties: Seq<(u32, PropValue)>) -> Seq<(u32, PropValueView)> {
    properties.map_values(|property: (u32, PropValue)| (property.0, property.1@))
}

/// Reads the properties that fill `bytes[start..end]`.
#[verifier::spinoff_prover]
#[verifier::rlimit(40)]
fn read_properties(bytes: &[u8], start: usize, end: usize) -> (r: Option<Vec<(u32, PropValue)>>)
    requires
        start <= end <= bytes@.len(),
    ensures
        match r {
            Some(properties) => parse_properties(bytes@.subrange(start as int, end as int))
                == Some(properties_view(properties@)),
            None => parse_properties(bytes@.subrange(start as int, end as int)) is None,
        },
{
    let mut out: Vec<(u32, PropValue)> = Vec::new();
    let mut pos = start;
    assert(properties_view(out@) =~= Seq::<(u32, PropValueView)>::empty());
    assert(bytes@.subrange(start as int, end as int) =~= bytes@.subrange(pos as int, end as int));
    while pos < end
        invariant
            start <= pos <= end <= bytes@.len(),
            parse_properties(bytes@.subrange(start as int, end as int)) == prepend(
                properties_view(out@),
                parse_properties(bytes@.subrange(pos as int, end as int)),
            ),
        decreases end - pos,
    {
        let ghost rest = bytes@.subrange(pos as int, end as int);
        let ghost value_region = rest.subrange(8, rest.len() as int);
        if end - pos < 16 {
            return None;
        }
        let key = read_u32(bytes, pos);
        let size = read_u32(bytes, pos + 8);
        let pod_type = read_u32(bytes, pos + 12);
        assert(rest.subrange(0, 4) =~= bytes@.subrange(pos as int, pos + 4));
        assert(value_region.subrange(0, 4) =~= bytes@.subrange(pos + 8, pos + 12));
        assert(value_region.subrange(4, 8) =~= bytes@.subrange(pos + 12, pos + 16));
        let pad: u64 = if size % 8 == 0 {
            0
        } else {
            8 - (size % 8) as u64
        };
        let total: u64 = 8 + size as u64 + pad;
        if total > (end - pos - 8) as u64 {
            return None;
        }
        let body_start = pos + 16;
        let body_end = body_start + size as usize;
        assert(rest.subrange(16, 16 + size) =~= bytes@.subrange(body_start as int, body_end as int));
        let value = if pod_type == SPA_TYPE_STRUCT {
            match read_fields(bytes, body_start, body_end) {
                Some(fields) => PropValue::Struct(fields),
                None => return None,
            }
        } else {
            match read_field(pod_type, &bytes[body_start..body_end]) {
                Some(field) => PropValue::Field(field),
                None => return None,
            }
        };
        let ghost before = out@;
        out.push((key, value));
        let next = pos + 8 + total as usize;
        assert(rest.subrange(8 + total as int, rest.len() as int) =~= bytes@.subrange(
            next as int,
            end as int,
        ));
        assert(properties_view(out@) =~= properties_view(before) + seq![(key, value@)]);
        proof {
            let tail = parse_properties(bytes@.subrange(next as int, end as int));
            if tail is Some {
                assert(properties_view(before) + (seq![(key, value@)] + tail->0)
                    =~= properties_view(out@) + tail->0);
            }
        }
        pos = next;
    }
    assert(properties_view(out@) + Seq::empty() =~= properties_view(out@));
    Some(out)
}

/// A decoded parameter object.
pub struct DecodedObject {
    pub object_type: u32,
    pub id: u32,
    pub properties: Vec<(u32, PropValue)>,
}

impl View for DecodedObject {
    type V = ObjectView;

    open spec fn view(&self) -> ObjectView {
        ObjectView {
            object_type: self.object_type,
            id: self.id,
            properties: properties_view(self.properties@),
        }
    }
}

/// Reads the object POD at the front of `bytes`.
pub fn read_object(bytes: &[u8]) -> (r: Option<DecodedObject>)
    ensures
        match r {
            Some(object) => parse_object(bytes@) == Some(object@),
            None => parse_object(bytes@) is None,
        },
{
    if bytes.len() < 8 {
        return None;
    }
    let size = read_u32(bytes, 0);
    let pod_type = read_u32(bytes, 4);
    if pod_type != SPA_TYPE_OBJECT || size < 8 || (size as u64) + 8 > bytes.len() as u64 {
        return None;
    }
    let ghost body = bytes@.subrange(8, 8 + size);
    let object_type = read_u32(bytes, 8);
    let id = read_u32(bytes, 12);
    assert(body.subrange(0, 4) =~= bytes@.subrange(8, 12));
    assert(body.subrange(4, 8) =~= bytes@.subrange(12, 16));
    assert(body.subrange(8, size as int) =~= bytes@.subrange(16, 8 + size));
    match read_properties(bytes, 16, 8 + size as usize) {
        Some(properties) => Some(DecodedObject { object_type, id, properties }),
        None => None,
    }
}

/// Properties that parse lead every properties region they begin: what
/// follows them parses on its own.
pub proof fn lemma_parse_properties_prefix(a: Seq<u8>, b: Seq<u8>)
    requires
        parse_properties(a) is Some,
    ensures
        parse_properties(a + b) == prepend(parse_properties(a)->0, parse_properties(b)),
    decreases a.len(),
{
    if a.len() == 0 {
        assert(a + b =~= b);
        if parse_properties(b) is Some {
            assert(Seq::<(u32, PropValueView)>::empty() + parse_properties(b)->0
                =~= parse_properties(b)->0);
        }
    } else {
        let ab = a + b;
        let region = a.subrange(8, a.len() as int);
        let (size, pod_type, total) = pod_extent(region)->0;
        assert(ab.subrange(8, ab.len() as int) =~= region + b);
        assert((region + b).subrange(0, 4) =~= region.subrange(0, 4));
        assert((region + b).subrange(4, 8) =~= region.subrange(4, 8));
        assert(ab.subrange(0, 4) =~= a.subrange(0, 4));
        assert(ab.subrange(16, 16 + size) =~= a.subrange(16, 16 + size));
        let rest = a.subrange(8 + total as int, a.len() as int);
        assert(ab.subrange(8 + total as int, ab.len() as int) =~= rest + b);
        lemma_parse_properties_prefix(rest, b);
        let x = parse_properties(a)->0;
        let head = seq![(u32_at(a, 0), parse_prop_value(pod_type, a.subrange(16, 16 + size))->0)];
        let y = parse_properties(rest)->0;
        assert(x == head + y);
        if parse_properties(b) is Some {
            assert(head + (y + parse_properties(b)->0) =~= x + parse_properties(b)->0);
        }
    }
}

/// The property that `bytes` hold when they are exactly one whole
/// property: key, flags, and a value POD with its padding.
pub open spec fn single_property(bytes: Seq<u8>) -> Option<(u32, PropValueView)> {
    if bytes.len() < 8 {
        None
    } else {
        match pod_extent(bytes.subrange(8, bytes.len() as int)) {
            Some((size, pod_type, total)) => if 8 + total == bytes.len() {
                match parse_prop_value(pod_type, bytes.subrange(16, 16 + size)) {
                    Some(value) => Some((u32_at(bytes, 0), value)),
                    None => None,
                }
            } else {
                None
            },
            None => None,
        }
    }
}

/// Exactly one whole property parses alone.
pub proof fn lemma_parse_single_property(bytes: Seq<u8>)
    requires
        single_property(bytes) is Some,
    ensures
        parse_properties(bytes) == Some(seq![single_property(bytes)->0]),
{
    let rest = bytes.subrange(bytes.len() as int, bytes.len() as int);
    assert(rest =~= Seq::<u8>::empty());
    assert(parse_properties(rest) == Some(Seq::<(u32, PropValueView)>::empty()));
    let entry = single_property(bytes)->0;
    assert(seq![entry] + Seq::<(u32, PropValueView)>::empty() =~= seq![entry]);
}

/// How a property reads back after encoding: its key, and its value as
/// the field it carries.
pub open spec fn property_view_of(property: Property) -> (u32, PropValueView) {
    (property.key, PropValueView::Field(field_view_of(property.value)))
}

/// Whether a property reads back as [`property_view_of`] says: its value is
/// no struct, and a string value holds no NUL character.
pub open spec fn property_round_trips(property: Property) -> bool {
    !(property.value is Struct) && field_round_trips(property.value)
}

/// The encoded properties `properties` read back one by one.
proof fn lemma_parse_properties_bytes(properties: Seq<Property>)
    requires
        properties_bytes(properties).len() <= MAX_BODY,
        forall|i: int| 0 <= i < properties.len() ==> property_round_trips(#[trigger] properties[i]),
    ensures
        parse_properties(properties_bytes(properties)) == Some(
            properties.map_values(|property: Property| property_view_of(property)),
        ),
    decreases properties.len(),
{
    lemma_auto_spec_u32_to_from_le_bytes();
    if properties.len() == 0 {
        assert(properties.map_values(|property: Property| property_view_of(property))
            =~= Seq::<(u32, PropValueView)>::empty());
    } else {
        let front = properties.drop_last();
        let last = properties.last();
        assert forall|i: int| 0 <= i < front.len() implies property_round_trips(
            #[trigger] front[i],
        ) by {
            assert(front[i] == properties[i]);
        }
        lemma_parse_properties_bytes(front);
        lemma_properties_hold_value(properties, properties.len() - 1);
        let value = last.value;
        let one = spec_u32_to_le_bytes(last.key) + spec_u32_to_le_bytes(last.flags.0) + value_pod(
            value,
        );
        assert(properties_bytes(properties) =~= properties_bytes(front) + one);
        lemma_pod_bytes_read(value_type(value), value_body(value), Seq::empty());
        assert(value_pod(value) + Seq::empty() =~= value_pod(value));
        assert(one.subrange(8, one.len() as int) =~= value_pod(value));
        assert(one.subrange(16, 16 + value_body(value).len() as int) =~= value_body(value));
        assert(one.subrange(0, 4) =~= spec_u32_to_le_bytes(last.key));
        lemma_parse_value_field(value);
        assert(value_type(value) != SPA_TYPE_STRUCT);
        assert(single_property(one) == Some(property_view_of(last)));
        lemma_parse_single_property(one);
        lemma_parse_properties_prefix(properties_bytes(front), one);
        assert(front.map_values(|property: Property| property_view_of(property)) + seq![
            property_view_of(last),
        ] =~= properties.map_values(|property: Property| property_view_of(property)));
    }
}

/// An encoded object reads back as its type, its identifier and its
/// properties, each value as the field it carries.
pub proof fn lemma_object_round_trip(object: Object)
    requires
        object_body(object).len() <= MAX_BODY,
        forall|i: int|
            0 <= i < object.properties@.len() ==> property_round_trips(
                #[trigger] object.properties@[i],
            ),
    ensures
        parse_object(object_pod(object)) == Some(
            ObjectView {
                object_type: object.type_,
                id: object.id,
                properties: object.properties@.map_values(
                    |property: Property| property_view_of(property),
                ),
            },
        ),
{
    lemma_auto_spec_u32_to_from_le_bytes();
    let body = object_body(object);
    let bytes = object_pod(object);
    lemma_pod_bytes_read(SPA_TYPE_OBJECT, body, Seq::empty());
    assert(bytes + Seq::empty() =~= bytes);
    assert(object_body(object).len() >= properties_bytes(object.properties@).len());
    lemma_parse_properties_bytes(object.properties@);
    assert(bytes.subrange(8, 8 + body.len() as int) == body);
    assert(body.subrange(0, 4) =~= spec_u32_to_le_bytes(object.type_));
    assert(body.subrange(4, 8) =~= spec_u32_to_le_bytes(object.id));
    assert(body.subrange(8, body.len() as int) =~= properties_bytes(object.properties@));
}

/// Object type of property parameters.
pub const SPA_TYPE_OBJECT_PARAM_PROPS: u32 = 0x40002;

/// Parameter identifier of property parameters.
pub const SPA_PARAM_PROPS: u32 = 2;

/// Property key whose value is a struct of parameter fields.
pub const SPA_PROP_PARAMS: u32 = 0x80001;

/// Why bytes are not a `Props` object with a struct of parameter fields.
#[derive(Clone, Copy, Debug, PartialEq, Eq, Structural)]
pub enum PropsError {
    /// Not a well-formed `Props` object with the one parameter property.
    InvalidObject,
    /// The parameter property does not hold a struct.
    InvalidFields,
}

/// The fields of the parameter struct that the `Props` object at the front
/// of `bytes` carries.
pub open spec fn spec_props_fields(bytes: Seq<u8>) -> Result<Seq<PodFieldView>, PropsError> {
    match parse_object(bytes) {
        None => Err(PropsError::InvalidObject),
        Some(object) => if object.object_type != SPA_TYPE_OBJECT_PARAM_PROPS || object.id
            != SPA_PARAM_PROPS || object.properties.len() != 1 || object.properties[0].0
            != SPA_PROP_PARAMS {
            Err(PropsError::InvalidObject)
        } else {
            match object.properties[0].1 {
                PropValueView::Struct(fields) => Ok(fields),
                PropValueView::Field(_) => Err(PropsError::InvalidFields),
            }
        },
    }
}

/// Reads the fields of the parameter struct that the `Props` object at the
/// front of `bytes` carries.
pub fn props_fields(bytes: &[u8]) -> (r: Result<Vec<PodField>, PropsError>)
    ensures
        match r {
            Ok(fields) => spec_props_fields(bytes@) == Ok::<_, PropsError>(fields_view(fields@)),
            Err(e) => spec_props_fields(bytes@) == Err::<Seq<PodFieldView>, _>(e),
        },
{
    let object = match read_object(bytes) {
        Some(object) => object,
        None => return Err(PropsError::InvalidObject),
    };
    if object.object_type != SPA_TYPE_OBJECT_PARAM_PROPS || object.id != SPA_PARAM_PROPS
        || object.properties.len() != 1 || object.properties[0].0 != SPA_PROP_PARAMS {
        return Err(PropsError::InvalidObject);
    }
    let mut properties = object.properties;
    let ghost decoded = properties@;
    match properties.pop() {
        Some((_, PropValue::Struct(fields))) => Ok(fields),
        Some((_, PropValue::Field(_))) => Err(PropsError::InvalidFields),
        None => Err(PropsError::InvalidObject),
    }
}

/// The `Props` object whose one parameter property holds the struct of
/// `fields`.
pub open spec fn props_object(fields: Seq<Value>) -> Seq<u8> {
    pod_bytes(
        SPA_TYPE_OBJECT,
        spec_u32_to_le_bytes(SPA_TYPE_OBJECT_PARAM_PROPS) + spec_u32_to_le_bytes(SPA_PARAM_PROPS)
            + spec_u32_to_le_bytes(SPA_PROP_PARAMS) + spec_u32_to_le_bytes(0) + pod_bytes(
            SPA_TYPE_STRUCT,
            struct_body(fields),
        ),
    )
}

/// The `Props` object whose one parameter property holds the struct of
/// `fields`, or `None` when a body in it is too large for a POD header.
pub fn encode_props(fields: Vec<Value>) -> (r: Option<Vec<u8>>)
    ensures
        r is Some <==> props_object(fields@).len() <= MAX_BODY + 8,
        r matches Some(bytes) ==> bytes@ == props_object(fields@),
{
    let ghost field_seq = fields@;
    let object = Object {
        type_: SPA_TYPE_OBJECT_PARAM_PROPS,
        id: SPA_PARAM_PROPS,
        properties: vec![Property::new(SPA_PROP_PARAMS, Value::Struct(fields))],
    };
    proof {
        lemma_auto_spec_u32_to_from_le_bytes();
        let properties = object.properties@;
        reveal_with_fuel(properties_bytes, 2);
        assert(properties.drop_last() =~= Seq::<Property>::empty());
        assert(value_body(properties[0].value) == struct_body(field_seq));
        assert(object_body(object) =~= spec_u32_to_le_bytes(SPA_TYPE_OBJECT_PARAM_PROPS)
            + spec_u32_to_le_bytes(SPA_PARAM_PROPS) + spec_u32_to_le_bytes(SPA_PROP_PARAMS)
            + spec_u32_to_le_bytes(0) + pod_bytes(SPA_TYPE_STRUCT, struct_body(field_seq)));
        assert(object_pod(object) == props_object(field_seq));
        assert(props_object(field_seq).len() == 8 + object_body(object).len() + padding(
            object_body(object).len(),
        ));
    }
    serialize_object(&object)
}

/// Whether the POD of `value` reads back as the field it carries: a string
/// holds no NUL character.
pub open spec fn field_round_trips(value: Value) -> bool {
    value matches Value::String(s) ==> !s@.contains('\0')
}

/// The field that the POD of `value` reads back as.
pub open spec fn field_view_of(value: Value) -> PodFieldView {
    match value {
        Value::Id(id) => PodFieldView::Id(id.0),
        Value::Int(x) => PodFieldView::Int(x),
        Value::Long(x) => PodFieldView::Long(x),
        Value::String(s) => PodFieldView::String(s@),
        _ => PodFieldView::Other(value_type(value)),
    }
}

/// How `pod_bytes(pod_type, body) + tail` reads: its header, its body, and
/// what follows the padded POD.
pub proof fn lemma_pod_bytes_read(pod_type: u32, body: Seq<u8>, tail: Seq<u8>)
    requires
        body.len() <= MAX_BODY,
    ensures
        pod_bytes(pod_type, body).len() == 8 + body.len() + padding(body.len()),
        (pod_bytes(pod_type, body) + tail).len() >= 8,
        u32_at(pod_bytes(pod_type, body) + tail, 0) == body.len(),
        u32_at(pod_bytes(pod_type, body) + tail, 4) == pod_type,
        (pod_bytes(pod_type, body) + tail).subrange(8, 8 + body.len() as int) == body,
        (pod_bytes(pod_type, body) + tail).subrange(
            pod_bytes(pod_type, body).len() as int,
            (pod_bytes(pod_type, body) + tail).len() as int,
        ) == tail,
        pod_extent(pod_bytes(pod_type, body) + tail) == Some(
            (body.len() as u32, pod_type, pod_bytes(pod_type, body).len()),
        ),
{
    lemma_auto_spec_u32_to_from_le_bytes();
    let pod = pod_bytes(pod_type, body);
    let bytes = pod + tail;
    assert(bytes.subrange(0, 4) =~= spec_u32_to_le_bytes(body.len() as u32));
    assert(bytes.subrange(4, 8) =~= spec_u32_to_le_bytes(pod_type));
    assert(bytes.subrange(8, 8 + body.len() as int) =~= body);
    assert(bytes.subrange(pod.len() as int, bytes.len() as int) =~= tail);
}

/// The UTF-8 encoding of a scalar other than NUL holds no zero byte.
proof fn lemma_encode_scalar_nonzero(c: u32)
    requires
        c != 0,
        is_scalar(c),
    ensures
        !encode_scalar(c).contains(0u8),
{
    let bytes = encode_scalar(c);
    assert(c <= 0x7f ==> (c & 0x7f) as u8 != 0u8) by (bit_vector)
        requires
            c != 0,
    ;
    assert((0xc0u8 | ((c >> 6u32) & 0x1fu32) as u8) != 0u8) by (bit_vector);
    assert((0xe0u8 | ((c >> 12u32) & 0x0fu32) as u8) != 0u8) by (bit_vector);
    assert((0xf0u8 | ((c >> 18u32) & 0x7u32) as u8) != 0u8) by (bit_vector);
    assert((0x80u8 | (c & 0x3fu32) as u8) != 0u8) by (bit_vector);
    assert((0x80u8 | ((c >> 6u32) & 0x3fu32) as u8) != 0u8) by (bit_vector);
    assert((0x80u8 | ((c >> 12u32) & 0x3fu32) as u8) != 0u8) by (bit_vector);
    assert forall|i: int| 0 <= i < bytes.len() implies bytes[i] != 0u8 by {}
}

/// The UTF-8 encoding of characters without NUL holds no zero byte.
proof fn lemma_encode_utf8_nonzero(chars: Seq<char>)
    requires
        !chars.contains('\0'),
    ensures
        !encode_utf8(chars).contains(0u8),
    decreases chars.len(),
{
    if chars.len() > 0 {
        let first = chars[0];
        assert(first != '\0');
        char_is_scalar(first);
        if first as u32 == 0 {
            char_u32_cast(first, 0u32);
            char_u32_cast('\0', 0u32);
        }
        lemma_encode_scalar_nonzero(first as u32);
        assert(!chars.drop_first().contains('\0')) by {
            if chars.drop_first().contains('\0') {
                let j = choose|j: int| 0 <= j < chars.drop_first().len() && chars.drop_first()[j]
                    == '\0';
                assert(chars[j + 1] == '\0');
            }
        }
        lemma_encode_utf8_nonzero(chars.drop_first());
        let whole = encode_utf8(chars);
        let head = encode_scalar(first as u32);
        let rest = encode_utf8(chars.drop_first());
        assert(whole =~= head + rest);
        assert forall|i: int| 0 <= i < whole.len() implies whole[i] != 0u8 by {
            if i < head.len() {
                assert(whole[i] == head[i]);
            } else {
                assert(whole[i] == rest[i - head.len()]);
            }
        }
    }
}

/// The POD body of a field value reads back as that field.
pub proof fn lemma_parse_value_field(value: Value)
    requires
        field_round_trips(value),
    ensures
        parse_field(value_type(value), value_body(value)) == Some(field_view_of(value)),
{
    lemma_auto_spec_u32_to_from_le_bytes();
    lemma_auto_spec_u64_to_from_le_bytes();
    match value {
        Value::Id(id) => {
            let body = value_body(value);
            assert(body.subrange(0, 4) =~= body);
        },
        Value::Int(x) => {
            let body = value_body(value);
            assert(body.subrange(0, 4) =~= body);
            assert((x as u32) as i32 == x) by (bit_vector);
        },
        Value::Long(x) => {
            assert((x as u64) as i64 == x) by (bit_vector);
        },
        Value::String(text) => {
            let encoded = encode_utf8(text@);
            let body = encoded.push(0u8);
            assert(body.drop_last() =~= encoded);
            encode_utf8_valid_utf8(text@);
            encode_utf8_decode_utf8(text@);
            lemma_encode_utf8_nonzero(text@);
        },
        _ => {},
    }
}

/// A struct body is the POD of its first field followed by the body of the
/// others.
proof fn lemma_struct_body_front(fields: Seq<Value>)
    requires
        fields.len() > 0,
    ensures
        struct_body(fields) == value_pod(fields[0]) + struct_body(fields.drop_first()),
    decreases fields.len(),
{
    if fields.len() == 1 {
        reveal_with_fuel(struct_body, 2);
        assert(fields.drop_last() =~= Seq::<Value>::empty());
        assert(fields.drop_first() =~= Seq::<Value>::empty());
        assert(struct_body(fields) =~= value_pod(fields[0]) + struct_body(fields.drop_first()));
    } else {
        lemma_struct_body_front(fields.drop_last());
        assert(fields.drop_last().drop_first() =~= fields.drop_first().drop_last());
        assert(fields.drop_first().last() == fields.last());
        assert(struct_body(fields) =~= value_pod(fields[0]) + struct_body(fields.drop_first()));
    }
}

/// The PODs of fields that round-trip read back as those fields.
proof fn lemma_parse_struct_body(fields: Seq<Value>)
    requires
        forall|i: int| 0 <= i < fields.len() ==> field_round_trips(#[trigger] fields[i]),
        struct_body(fields).len() <= MAX_BODY,
    ensures
        parse_fields(struct_body(fields)) == Some(fields.map_values(|v: Value| field_view_of(v))),
    decreases fields.len(),
{
    if fields.len() == 0 {
        assert(fields.map_values(|v: Value| field_view_of(v)) =~= Seq::<PodFieldView>::empty());
    } else {
        let first = fields[0];
        let rest = fields.drop_first();
        lemma_struct_body_front(fields);
        lemma_struct_body_holds_field(fields, 0);
        let tail = struct_body(rest);
        lemma_pod_bytes_read(value_type(first), value_body(first), tail);
        lemma_parse_value_field(first);
        assert(tail.len() <= struct_body(fields).len());
        assert forall|i: int| 0 <= i < rest.len() implies field_round_trips(#[trigger] rest[i]) by {
            assert(rest[i] == fields[i + 1]);
        }
        lemma_parse_struct_body(rest);
        assert(fields.map_values(|v: Value| field_view_of(v)) =~= seq![field_view_of(first)]
            + rest.map_values(|v: Value| field_view_of(v)));
    }
}

/// The `Props` object built from fields that round-trip reads back as
/// those fields.
pub proof fn lemma_props_round_trip(fields: Seq<Value>)
    requires
        forall|i: int| 0 <= i < fields.len() ==> field_round_trips(#[trigger] fields[i]),
        props_object(fields).len() <= MAX_BODY + 8,
    ensures
        spec_props_fields(props_object(fields)) == Ok::<_, PropsError>(
            fields.map_values(|v: Value| field_view_of(v)),
        ),
{
    lemma_auto_spec_u32_to_from_le_bytes();
    let sb = struct_body(fields);
    let value = pod_bytes(SPA_TYPE_STRUCT, sb);
    let properties = spec_u32_to_le_bytes(SPA_PROP_PARAMS) + spec_u32_to_le_bytes(0) + value;
    let body = spec_u32_to_le_bytes(SPA_TYPE_OBJECT_PARAM_PROPS) + spec_u32_to_le_bytes(
        SPA_PARAM_PROPS,
    ) + properties;
    let bytes = props_object(fields);
    assert(body =~= spec_u32_to_le_bytes(SPA_TYPE_OBJECT_PARAM_PROPS) + spec_u32_to_le_bytes(
        SPA_PARAM_PROPS,
    ) + spec_u32_to_le_bytes(SPA_PROP_PARAMS) + spec_u32_to_le_bytes(0) + value);
    lemma_pod_bytes_read(SPA_TYPE_OBJECT, body, Seq::empty());
    assert(bytes + Seq::empty() =~= bytes);
    assert(sb.len() <= MAX_BODY);
    lemma_pod_bytes_read(SPA_TYPE_STRUCT, sb, Seq::empty());
    assert(value + Seq::empty() =~= value);
    lemma_parse_struct_body(fields);
    let object_body = bytes.subrange(8, 8 + body.len() as int);
    assert(object_body == body);
    assert(body.subrange(0, 4) =~= spec_u32_to_le_bytes(SPA_TYPE_OBJECT_PARAM_PROPS));
    assert(body.subrange(4, 8) =~= spec_u32_to_le_bytes(SPA_PARAM_PROPS));
    assert(body.subrange(8, body.len() as int) =~= properties);
    assert(properties.subrange(0, 4) =~= spec_u32_to_le_bytes(SPA_PROP_PARAMS));
    assert(properties.subrange(8, properties.len() as int) =~= value);
    assert(properties.subrange(16, 16 + sb.len() as int) =~= value.subrange(8, 8 + sb.len() as int));
    assert(properties.subrange(8 + value.len() as int, properties.len() as int) =~= Seq::<u8>::empty());
    let field_views = fields.map_values(|v: Value| field_view_of(v));
    assert(u32_at(properties, 0) == SPA_PROP_PARAMS);
    assert(pod_extent(properties.subrange(8, properties.len() as int)) == Some(
        (sb.len() as u32, SPA_TYPE_STRUCT, value.len()),
    ));
    assert(parse_prop_value(SPA_TYPE_STRUCT, properties.subrange(16, 16 + sb.len() as int)) == Some(
        PropValueView::Struct(field_views),
    ));
    assert(parse_properties(Seq::<u8>::empty()) == Some(Seq::<(u32, PropValueView)>::empty()));
    assert(seq![(SPA_PROP_PARAMS, PropValueView::Struct(field_views))] + Seq::<(u32, PropValueView)>::empty()
        =~= seq![(SPA_PROP_PARAMS, PropValueView::Struct(field_views))]);
    assert(parse_properties(properties) == Some(
        seq![(SPA_PROP_PARAMS, PropValueView::Struct(fields.map_values(|v: Value| field_view_of(v))))],
    ));
}

/// The type of the POD that carries `field`.
pub open spec fn field_type(field: PodFieldView) -> u32 {
    match field {
        PodFieldView::Id(_) => SPA_TYPE_ID,
        PodFieldView::Int(_) => SPA_TYPE_INT,
        PodFieldView::Long(_) => SPA_TYPE_LONG,
        PodFieldView::String(_) => SPA_TYPE_STRING,
        PodFieldView::Other(pod_type) => pod_type,
    }
}

/// The body of the POD that carries an `Id`, `Int`, `Long` or `String`
/// field.
pub open spec fn field_body(field: PodFieldView) -> Seq<u8> {
    match field {
        PodFieldView::Id(x) => Id(x).spec_body(),
        PodFieldView::Int(x) => x.spec_body(),
        PodFieldView::Long(x) => x.spec_body(),
        PodFieldView::String(text) => encode_utf8(text).push(0u8),
        PodFieldView::Other(_) => Seq::empty(),
    }
}

/// The PODs of the `Int`, `Long` and `String` fields `fields`, in order.
pub open spec fn fields_struct_body(fields: Seq<PodFieldView>) -> Seq<u8>
    decreases fields.len(),
{
    if fields.len() == 0 {
        Seq::empty()
    } else {
        fields_struct_body(fields.drop_last()) + pod_bytes(
            field_type(fields.last()),
            field_body(fields.last()),
        )
    }
}

/// The `Props` object whose one parameter property holds the struct of the
/// `Int`, `Long` and `String` fields `fields`.
pub open spec fn props_fields_object(fields: Seq<PodFieldView>) -> Seq<u8> {
    pod_bytes(
        SPA_TYPE_OBJECT,
        spec_u32_to_le_bytes(SPA_TYPE_OBJECT_PARAM_PROPS) + spec_u32_to_le_bytes(SPA_PARAM_PROPS)
            + spec_u32_to_le_bytes(SPA_PROP_PARAMS) + spec_u32_to_le_bytes(0) + pod_bytes(
            SPA_TYPE_STRUCT,
            fields_struct_body(fields),
        ),
    )
}

/// Whether `value` is an `Id`, an `Int`, a `Long` or a `String`.
pub open spec fn scalar_field(value: Value) -> bool {
    value is Id || value is Int || value is Long || value is String
}

/// The fields that `values` read back as.
pub open spec fn values_view(values: Seq<Value>) -> Seq<PodFieldView> {
    values.map_values(|v: Value| field_view_of(v))
}

/// The POD of a scalar value is that of the field it reads back as.
proof fn lemma_scalar_value_pod(value: Value)
    requires
        scalar_field(value),
    ensures
        value_type(value) == field_type(field_view_of(value)),
        value_body(value) == field_body(field_view_of(value)),
{
}

/// The PODs of scalar values are those of the fields they read back as.
pub proof fn lemma_scalar_props_object(values: Seq<Value>)
    requires
        forall|i: int| 0 <= i < values.len() ==> scalar_field(#[trigger] values[i]),
    ensures
        struct_body(values) == fields_struct_body(values_view(values)),
        props_object(values) == props_fields_object(values_view(values)),
    decreases values.len(),
{
    if values.len() > 0 {
        let front = values.drop_last();
        let last = values.last();
        assert forall|i: int| 0 <= i < front.len() implies scalar_field(#[trigger] front[i]) by {
            assert(front[i] == values[i]);
        }
        lemma_scalar_props_object(front);
        lemma_scalar_value_pod(last);
        let view = values_view(values);
        assert(view.drop_last() =~= values_view(front));
        assert(view.last() == field_view_of(last));
        assert(struct_body(values) == struct_body(front) + pod_bytes(
            value_type(last),
            value_body(last),
        ));
        assert(fields_struct_body(view) == fields_struct_body(view.drop_last()) + pod_bytes(
            field_type(view.last()),
            field_body(view.last()),
        ));
    } else {
        assert(values_view(values).len() == 0);
    }
}

/// Whether a field reads back as itself after encoding: an `Int`, a `Long`,
/// or a `String` without NUL characters.
pub open spec fn field_encodable(field: PodFieldView) -> bool {
    match field {
        PodFieldView::Id(_) => true,
        PodFieldView::Int(_) => true,
        PodFieldView::Long(_) => true,
        PodFieldView::String(text) => !text.contains('\0'),
        PodFieldView::Other(_) => false,
    }
}

/// The POD body of an encodable field reads back as that field.
proof fn lemma_parse_encodable_field(field: PodFieldView)
    requires
        field_encodable(field),
    ensures
        parse_field(field_type(field), field_body(field)) == Some(field),
{
    lemma_auto_spec_u32_to_from_le_bytes();
    lemma_auto_spec_u64_to_from_le_bytes();
    match field {
        PodFieldView::Id(x) => {
            let body = field_body(field);
            assert(body.subrange(0, 4) =~= body);
        },
        PodFieldView::Int(x) => {
            let body = field_body(field);
            assert(body.subrange(0, 4) =~= body);
            assert((x as u32) as i32 == x) by (bit_vector);
        },
        PodFieldView::Long(x) => {
            assert((x as u64) as i64 == x) by (bit_vector);
        },
        PodFieldView::String(text) => {
            let encoded = encode_utf8(text);
            assert(encoded.push(0u8).drop_last() =~= encoded);
            encode_utf8_valid_utf8(text);
            encode_utf8_decode_utf8(text);
            lemma_encode_utf8_nonzero(text);
        },
        PodFieldView::Other(_) => {},
    }
}

/// A fields body is the POD of the first field followed by the body of the
/// others.
proof fn lemma_fields_struct_body_front(fields: Seq<PodFieldView>)
    requires
        fields.len() > 0,
    ensures
        fields_struct_body(fields) == pod_bytes(field_type(fields[0]), field_body(fields[0]))
            + fields_struct_body(fields.drop_first()),
    decreases fields.len(),
{
    if fields.len() == 1 {
        reveal_with_fuel(fields_struct_body, 2);
        assert(fields.drop_last() =~= Seq::<PodFieldView>::empty());
        assert(fields.drop_first() =~= Seq::<PodFieldView>::empty());
        assert(fields_struct_body(fields) =~= pod_bytes(field_type(fields[0]), field_body(fields[0]))
            + fields_struct_body(fields.drop_first()));
    } else {
        lemma_fields_struct_body_front(fields.drop_last());
        assert(fields.drop_last().drop_first() =~= fields.drop_first().drop_last());
        assert(fields.drop_first().last() == fields.last());
        assert(fields_struct_body(fields) =~= pod_bytes(field_type(fields[0]), field_body(fields[0]))
            + fields_struct_body(fields.drop_first()));
    }
}

/// A fields body holds the body of each field.
proof fn lemma_fields_struct_body_holds(fields: Seq<PodFieldView>, i: int)
    requires
        0 <= i < fields.len(),
    ensures
        fields_struct_body(fields).len() >= field_body(fields[i]).len(),
    decreases fields.len(),
{
    if i < fields.len() - 1 {
        lemma_fields_struct_body_holds(fields.drop_last(), i);
    }
}

/// The PODs of encodable fields read back as those fields.
proof fn lemma_parse_fields_struct_body(fields: Seq<PodFieldView>)
    requires
        forall|i: int| 0 <= i < fields.len() ==> field_encodable(#[trigger] fields[i]),
        fields_struct_body(fields).len() <= MAX_BODY,
    ensures
        parse_fields(fields_struct_body(fields)) == Some(fields),
    decreases fields.len(),
{
    if fields.len() == 0 {
    } else {
        let first = fields[0];
        let rest = fields.drop_first();
        lemma_fields_struct_body_front(fields);
        lemma_fields_struct_body_holds(fields, 0);
        let tail = fields_struct_body(rest);
        lemma_pod_bytes_read(field_type(first), field_body(first), tail);
        lemma_parse_encodable_field(first);
        assert forall|i: int| 0 <= i < rest.len() implies field_encodable(#[trigger] rest[i]) by {
            assert(rest[i] == fields[i + 1]);
        }
        lemma_parse_fields_struct_body(rest);
        assert(seq![first] + rest =~= fields);
    }
}

/// A `Props` object built from encodable fields reads back as those fields.
pub proof fn lemma_props_fields_round_trip(fields: Seq<PodFieldView>)
    requires
        forall|i: int| 0 <= i < fields.len() ==> field_encodable(#[trigger] fields[i]),
        props_fields_object(fields).len() <= MAX_BODY + 8,
    ensures
        spec_props_fields(props_fields_object(fields)) == Ok::<_, PropsError>(fields),
{
    lemma_auto_spec_u32_to_from_le_bytes();
    let sb = fields_struct_body(fields);
    let value = pod_bytes(SPA_TYPE_STRUCT, sb);
    let properties = spec_u32_to_le_bytes(SPA_PROP_PARAMS) + spec_u32_to_le_bytes(0) + value;
    let body = spec_u32_to_le_bytes(SPA_TYPE_OBJECT_PARAM_PROPS) + spec_u32_to_le_bytes(
        SPA_PARAM_PROPS,
    ) + properties;
    let bytes = props_fields_object(fields);
    assert(body =~= spec_u32_to_le_bytes(SPA_TYPE_OBJECT_PARAM_PROPS) + spec_u32_to_le_bytes(
        SPA_PARAM_PROPS,
    ) + spec_u32_to_le_bytes(SPA_PROP_PARAMS) + spec_u32_to_le_bytes(0) + value);
    lemma_pod_bytes_read(SPA_TYPE_OBJECT, body, Seq::empty());
    assert(bytes + Seq::empty() =~= bytes);
    assert(sb.len() <= MAX_BODY);
    lemma_pod_bytes_read(SPA_TYPE_STRUCT, sb, Seq::empty());
    assert(value + Seq::empty() =~= value);
    lemma_parse_fields_struct_body(fields);
    assert(bytes.subrange(8, 8 + body.len() as int) == body);
    assert(body.subrange(0, 4) =~= spec_u32_to_le_bytes(SPA_TYPE_OBJECT_PARAM_PROPS));
    assert(body.subrange(4, 8) =~= spec_u32_to_le_bytes(SPA_PARAM_PROPS));
    assert(body.subrange(8, body.len() as int) =~= properties);
    assert(properties.subrange(0, 4) =~= spec_u32_to_le_bytes(SPA_PROP_PARAMS));
    assert(properties.subrange(8, properties.len() as int) =~= value);
    assert(properties.subrange(16, 16 + sb.len() as int) =~= value.subrange(8, 8 + sb.len() as int));
    assert(properties.subrange(8 + value.len() as int, properties.len() as int) =~= Seq::<u8>::empty());
    assert(u32_at(properties, 0) == SPA_PROP_PARAMS);
    assert(pod_extent(properties.subrange(8, properties.len() as int)) == Some(
        (sb.len() as u32, SPA_TYPE_STRUCT, value.len()),
    ));
    assert(parse_prop_value(SPA_TYPE_STRUCT, properties.subrange(16, 16 + sb.len() as int)) == Some(
        PropValueView::Struct(fields),
    ));
    assert(parse_properties(Seq::<u8>::empty()) == Some(Seq::<(u32, PropValueView)>::empty()));
    assert(seq![(SPA_PROP_PARAMS, PropValueView::Struct(fields))] + Seq::<(u32, PropValueView)>::empty()
        =~= seq![(SPA_PROP_PARAMS, PropValueView::Struct(fields))]);
}

/// The UTF-8 encoding of `a + b` is that of `a` followed by that of `b`.
pub proof fn lemma_encode_utf8_append(a: Seq<char>, b: Seq<char>)
    ensures
        encode_utf8(a + b) == encode_utf8(a) + encode_utf8(b),
    decreases a.len(),
{
    if a.len() == 0 {
        assert(a + b =~= b);
        assert(encode_utf8(a) + encode_utf8(b) =~= encode_utf8(b));
    } else {
        assert((a + b).drop_first() =~= a.drop_first() + b);
        assert((a + b)[0] == a[0]);
        lemma_encode_utf8_append(a.drop_first(), b);
        assert(encode_utf8(a + b) =~= encode_utf8(a) + encode_utf8(b));
    }
}

/// A character takes at most four bytes in UTF-8.
pub proof fn lemma_encode_utf8_len(chars: Seq<char>)
    ensures
        encode_utf8(chars).len() <= 4 * chars.len(),
    decreases chars.len(),
{
    if chars.len() > 0 {
        lemma_encode_utf8_len(chars.drop_first());
    }
}

/// A fields body takes the bytes of its PODs: at most sixteen bytes of
/// header and padding for each field besides its body.
pub proof fn lemma_fields_struct_body_len(fields: Seq<PodFieldView>)
    requires
        forall|i: int| 0 <= i < fields.len() ==> #[trigger] field_body(fields[i]).len() <= MAX_BODY,
    ensures
        fields_struct_body(fields).len() <= 16 * fields.len() + fields_body_len(fields),
    decreases fields.len(),
{
    lemma_auto_spec_u32_to_from_le_bytes();
    if fields.len() > 0 {
        let front = fields.drop_last();
        assert forall|i: int| 0 <= i < front.len() implies #[trigger] field_body(front[i]).len()
            <= MAX_BODY by {
            assert(front[i] == fields[i]);
        }
        lemma_fields_struct_body_len(front);
        assert(field_body(fields.last()).len() <= MAX_BODY);
    }
}

/// Fields whose bodies take at most `bound` bytes each take at most
/// `bound` bytes per field.
pub proof fn lemma_fields_body_len_bound(fields: Seq<PodFieldView>, bound: nat)
    requires
        forall|i: int| 0 <= i < fields.len() ==> #[trigger] field_body(fields[i]).len() <= bound,
    ensures
        fields_body_len(fields) <= bound * fields.len(),
    decreases fields.len(),
{
    if fields.len() > 0 {
        let front = fields.drop_last();
        assert forall|i: int| 0 <= i < front.len() implies #[trigger] field_body(front[i]).len()
            <= bound by {
            assert(front[i] == fields[i]);
        }
        lemma_fields_body_len_bound(front, bound);
        assert(field_body(fields.last()).len() <= bound);
        assert(bound * front.len() + bound == bound * fields.len()) by (nonlinear_arith)
            requires
                front.len() + 1 == fields.len(),
        ;
    }
}

/// A `Props` object of at most eight fields, with strings of at most 64
/// characters, fits POD headers.
pub proof fn lemma_fields_fit(fields: Seq<PodFieldView>)
    requires
        fields.len() <= 8,
        forall|i: int|
            0 <= i < fields.len() ==> (#[trigger] fields[i] matches PodFieldView::String(text)
                ==> text.len() <= 64),
    ensures
        props_fields_object(fields).len() <= MAX_BODY + 8,
{
    assert forall|i: int| 0 <= i < fields.len() implies #[trigger] field_body(fields[i]).len()
        <= 260 by {
        lemma_auto_spec_u32_to_from_le_bytes();
        lemma_auto_spec_u64_to_from_le_bytes();
        if let PodFieldView::String(text) = fields[i] {
            lemma_encode_utf8_len(text);
        }
    }
    lemma_fields_struct_body_len(fields);
    lemma_fields_body_len_bound(fields, 260);
    lemma_auto_spec_u32_to_from_le_bytes();
}

/// The total size of the bodies of `fields`.
pub open spec fn fields_body_len(fields: Seq<PodFieldView>) -> nat
    decreases fields.len(),
{
    if fields.len() == 0 {
        0
    } else {
        fields_body_len(fields.drop_last()) + field_body(fields.last()).len()
    }
}

/// Whether `field` is a string whose UTF-8 bytes begin with `prefix`.
pub open spec fn key_with_prefix(field: PodFieldView, prefix: Seq<u8>) -> bool {
    field matches PodFieldView::String(key) && bytes_start_with(encode_utf8(key), prefix)
}

/// Whether a field at an even position of `fields` is a string whose UTF-8
/// bytes begin with `prefix`.
pub open spec fn has_prefixed_key(fields: Seq<PodFieldView>, prefix: Seq<u8>) -> bool {
    exists|i: int| 0 <= i < fields.len() && i % 2 == 0 && #[trigger] key_with_prefix(fields[i], prefix)
}

/// Whether a field at an even position of `fields` is a string that begins
/// with `prefix`.
pub fn fields_have_prefixed_key(fields: &[PodField], prefix: &str) -> (r: bool)
    ensures
        r == has_prefixed_key(fields_view(fields@), encode_utf8(prefix@)),
{
    let ghost view = fields_view(fields@);
    let mut i: usize = 0;
    while i < fields.len()
        invariant
            view == fields_view(fields@),
            i <= fields@.len(),
            i % 2 == 0,
            forall|j: int|
                0 <= j < i && j % 2 == 0 ==> !#[trigger] key_with_prefix(
                    view[j],
                    encode_utf8(prefix@),
                ),
        decreases fields@.len() - i,
    {
        let found = match &fields[i] {
            PodField::String(key) => str_starts_with(key.as_str(), prefix),
            _ => false,
        };
        if found {
            assert(key_with_prefix(view[i as int], encode_utf8(prefix@)));
            return true;
        }
        if fields.len() - i <= 2 {
            assert forall|j: int|
                0 <= j < fields@.len() && j % 2 == 0 implies !#[trigger] key_with_prefix(
                view[j],
                encode_utf8(prefix@),
            ) by {
                if j >= i {
                    assert(j == i);
                }
            }
            return false;
        }
        i = i + 2;
    }
    false
}

/// The `Int` at `index + 1` when the field at `index` is the string `key`.
pub open spec fn spec_field_int(fields: Seq<PodFieldView>, index: int, key: Seq<char>) -> Option<
    i32,
> {
    if 0 <= index && index + 1 < fields.len() && fields[index] == PodFieldView::String(key) {
        match fields[index + 1] {
            PodFieldView::Int(value) => Some(value),
            _ => None,
        }
    } else {
        None
    }
}

/// The `Long` at `index + 1` when the field at `index` is the string `key`.
pub open spec fn spec_field_long(fields: Seq<PodFieldView>, index: int, key: Seq<char>) -> Option<
    i64,
> {
    if 0 <= index && index + 1 < fields.len() && fields[index] == PodFieldView::String(key) {
        match fields[index + 1] {
            PodFieldView::Long(value) => Some(value),
            _ => None,
        }
    } else {
        None
    }
}

/// The `String` at `index + 1` when the field at `index` is the string
/// `key`.
pub open spec fn spec_field_string(fields: Seq<PodFieldView>, index: int, key: Seq<char>) -> Option<
    Seq<char>,
> {
    if 0 <= index && index + 1 < fields.len() && fields[index] == PodFieldView::String(key) {
        match fields[index + 1] {
            PodFieldView::String(value) => Some(value),
            _ => None,
        }
    } else {
        None
    }
}

/// Whether the field at `index` is the string `key`.
fn key_at(fields: &[PodField], index: usize, key: &str) -> (r: bool)
    requires
        index < fields@.len(),
    ensures
        r == (fields_view(fields@)[index as int] == PodFieldView::String(key@)),
{
    match &fields[index] {
        PodField::String(text) => str_eq(text.as_str(), key),
        _ => false,
    }
}

/// The `Int` at `index + 1` when the field at `index` is the string `key`.
pub fn field_int(fields: &[PodField], index: usize, key: &str) -> (r: Option<i32>)
    ensures
        r == spec_field_int(fields_view(fields@), index as int, key@),
{
    if index >= fields.len() || fields.len() - index < 2 || !key_at(fields, index, key) {
        return None;
    }
    match &fields[index + 1] {
        PodField::Int(value) => Some(*value),
        _ => None,
    }
}

/// The `Long` at `index + 1` when the field at `index` is the string `key`.
pub fn field_long(fields: &[PodField], index: usize, key: &str) -> (r: Option<i64>)
    ensures
        r == spec_field_long(fields_view(fields@), index as int, key@),
{
    if index >= fields.len() || fields.len() - index < 2 || !key_at(fields, index, key) {
        return None;
    }
    match &fields[index + 1] {
        PodField::Long(value) => Some(*value),
        _ => None,
    }
}

/// The `String` at `index + 1` when the field at `index` is the string
/// `key`.
pub fn field_string<'a>(fields: &'a [PodField], index: usize, key: &str) -> (r: Option<&'a str>)
    ensures
        match r {
            Some(value) => spec_field_string(fields_view(fields@), index as int, key@) == Some(
                value@,
            ),
            None => spec_field_string(fields_view(fields@), index as int, key@) is None,
        },
{
    if index >= fields.len() || fields.len() - index < 2 || !key_at(fields, index, key) {
        return None;
    }
    match &fields[index + 1] {
        PodField::String(value) => Some(value.as_str()),
        _ => None,
    }
}

} // verus!
