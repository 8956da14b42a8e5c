//! Owned storage for SPA parameter lists.

use vstd::prelude::*;

use crate::meta::{
    META_FEATURE_ACQUISITION_VERSION_1, META_SIZE_ACQUISITION, META_SIZE_PROGRESSIVE,
    META_TYPE_ACQUISITION, META_TYPE_PROGRESSIVE,
};
use crate::pod::{Id, Object, Property, Value};
use crate::pod_wire::{
    field_view_of, property_round_trips,
    lemma_object_round_trip, lemma_parse_properties_prefix, lemma_parse_single_property,
    lemma_parse_value_field, property_view_of,
    lemma_pod_bytes_read, object_body, object_pod, padding, parse_object, parse_prop_value,
    parse_properties, pod_bytes, pod_extent, push_pod, push_slice, push_value, read_object,
    read_u32, serialize_object, single_property, u32_at, value_pod, ObjectView, PodField,
    PodFieldView, PropValue, PropValueView, MAX_BODY, SPA_TYPE_INT, SPA_TYPE_OBJECT,
};

verus! {

/// Object type of metadata parameters.
pub const SPA_TYPE_OBJECT_PARAM_META: u32 = 0x40005;

/// Parameter identifier of metadata parameters.
pub const SPA_PARAM_META: u32 = 6;

/// Key of the metadata type of a metadata parameter.
pub const SPA_PARAM_META_TYPE: u32 = 1;

/// Key of the metadata size of a metadata parameter.
pub const SPA_PARAM_META_SIZE: u32 = 2;

/// Key of the requested metadata features of a metadata parameter.
pub const SPA_PARAM_META_FEATURES: u32 = 3;

/// Object type of buffer parameters.
pub const SPA_TYPE_OBJECT_PARAM_BUFFERS: u32 = 0x40004;

/// Parameter identifier of buffer parameters.
pub const SPA_PARAM_BUFFERS: u32 = 5;

/// Key of the buffer count of a buffer parameter.
pub const SPA_PARAM_BUFFERS_BUFFERS: u32 = 1;

/// Whether `pod` is a buffers parameter.
pub open spec fn is_buffers_object(pod: Seq<u8>) -> bool {
    parse_object(pod) matches Some(object) && object.object_type == SPA_TYPE_OBJECT_PARAM_BUFFERS
        && object.id == SPA_PARAM_BUFFERS
}

/// Whether `index` is the first property of `properties` with `key`.
pub open spec fn first_with_key(properties: Seq<(u32, PropValueView)>, key: u32, index: int) -> bool {
    &&& 0 <= index < properties.len()
    &&& properties[index].0 == key
    &&& forall|j: int| 0 <= j < index ==> (#[trigger] properties[j]).0 != key
}

/// Whether `bytes` are the buffers parameter `pod` with the value of its
/// first buffer-count property replaced by `Int(count)`.
pub open spec fn buffers_fixed(pod: Seq<u8>, count: i32, bytes: Seq<u8>) -> bool {
    let object = parse_object(pod)->0;
    &&& is_buffers_object(pod)
    &&& exists|index: int|
        first_with_key(object.properties, SPA_PARAM_BUFFERS_BUFFERS, index) && parse_object(bytes)
            == Some(
            ObjectView {
                properties: object.properties.update(
                    index,
                    (SPA_PARAM_BUFFERS_BUFFERS, PropValueView::Field(PodFieldView::Int(count))),
                ),
                ..object
            },
        )
}

/// Whether `bytes` are the buffers parameter `pod` with the value POD of
/// its first buffer-count property replaced by the POD of `Int(count)`, and
/// every other byte of the object kept: the object's type and identifier,
/// the properties before it, its key and flags, and the properties after it.
pub open spec fn buffers_spliced(pod: Seq<u8>, count: i32, bytes: Seq<u8>) -> bool {
    let object = parse_object(pod)->0;
    let end = 8 + u32_at(pod, 0);
    exists|index: int, pos: int, next: int|
        #![trigger first_with_key(object.properties, SPA_PARAM_BUFFERS_BUFFERS, index), pod.subrange(pos, next)]
        first_with_key(object.properties, SPA_PARAM_BUFFERS_BUFFERS, index) && 16 <= pos <= next
            <= end && parse_properties(pod.subrange(16, pos)) == Some(object.properties.take(index))
            && single_property(pod.subrange(pos, next)) == Some(object.properties[index]) && bytes
            == pod_bytes(
            SPA_TYPE_OBJECT,
            pod.subrange(8, pos + 8) + value_pod(Value::Int(count)) + pod.subrange(next, end),
        )
}

/// What fixing the buffer count of one parameter gives.
pub enum BuffersRewrite {
    /// The parameter is no buffers parameter.
    NotBuffers,
    /// The buffers parameter has no buffer-count property.
    NoBuffersProperty,
    /// The parameter with its buffer count fixed.
    Rewritten(Vec<u8>),
}

/// Fixes the buffer count of one parameter to `count`.
fn rewrite_buffers(pod: &[u8], count: i32) -> (r: BuffersRewrite)
    requires
        pod@.len() <= MAX_BODY,
    ensures
        match r {
            BuffersRewrite::NotBuffers => !is_buffers_object(pod@),
            BuffersRewrite::NoBuffersProperty => is_buffers_object(pod@) && forall|k: int|
                0 <= k < parse_object(pod@)->0.properties.len() ==> (#[trigger] parse_object(
                    pod@,
                )->0.properties[k]).0 != SPA_PARAM_BUFFERS_BUFFERS,
            BuffersRewrite::Rewritten(bytes) => buffers_fixed(pod@, count, bytes@)
                && buffers_spliced(pod@, count, bytes@) && is_pod(bytes@),
        },
{
    let object = match read_object(pod) {
        Some(object) => object,
        None => return BuffersRewrite::NotBuffers,
    };
    if object.object_type != SPA_TYPE_OBJECT_PARAM_BUFFERS || object.id != SPA_PARAM_BUFFERS {
        return BuffersRewrite::NotBuffers;
    }
    let ghost view = object@;
    let ghost properties = view.properties;
    let size = read_u32(pod, 0);
    let end: usize = 8 + size as usize;
    proof {
        assert(pod@.subrange(8, 8 + size).subrange(8, size as int) =~= pod@.subrange(16, end as int));
        assert(properties.take(0) =~= Seq::<(u32, PropValueView)>::empty());
        assert(properties.skip(0) =~= properties);
        assert(pod@.subrange(16, 16) =~= Seq::<u8>::empty());
    }
    let mut pos: usize = 16;
    let ghost mut index: int = 0;
    while pos < end
        invariant
            16 <= pos <= end,
            end == 8 + size,
            end <= pod@.len() <= MAX_BODY,
            parse_object(pod@) == Some(view),
            properties == view.properties,
            view.object_type == SPA_TYPE_OBJECT_PARAM_BUFFERS,
            view.id == SPA_PARAM_BUFFERS,
            u32_at(pod@, 0) == size,
            0 <= index <= properties.len(),
            parse_properties(pod@.subrange(16, pos as int)) == Some(properties.take(index)),
            parse_properties(pod@.subrange(pos as int, end as int)) == Some(properties.skip(index)),
            forall|j: int| 0 <= j < index ==> (#[trigger] properties[j]).0 != SPA_PARAM_BUFFERS_BUFFERS,
        decreases end - pos,
    {
        let ghost rest = pod@.subrange(pos as int, end as int);
        let ghost region = rest.subrange(8, rest.len() as int);
        let key = read_u32(pod, pos);
        let value_size = read_u32(pod, pos + 8);
        assert(rest.subrange(0, 4) =~= pod@.subrange(pos as int, pos + 4));
        assert(region.subrange(0, 4) =~= pod@.subrange(pos + 8, pos + 12));
        let ghost extent = pod_extent(region)->0;
        let ghost value = parse_prop_value(extent.1, rest.subrange(16, 16 + extent.0))->0;
        let ghost tail = rest.subrange(8 + extent.2 as int, rest.len() as int);
        assert(properties.skip(index) == seq![(key, value)] + parse_properties(tail)->0);
        assert(properties.skip(index).len() > 0);
        assert(properties.skip(index)[0] == properties[index]);
        let pad: usize = if value_size % 8 == 0 {
            0
        } else {
            8 - (value_size % 8) as usize
        };
        let total: usize = 8 + value_size as usize + pad;
        assert(total == extent.2);
        let next = pos + 8 + total;
        let ghost whole = pod@.subrange(pos as int, next as int);
        assert(whole.subrange(8, whole.len() as int) =~= region.subrange(0, total as int));
        assert(whole.subrange(8, whole.len() as int).subrange(0, 4) =~= region.subrange(0, 4));
        assert(whole.subrange(8, whole.len() as int).subrange(4, 8) =~= region.subrange(4, 8));
        assert(whole.subrange(16, 16 + extent.0) =~= rest.subrange(16, 16 + extent.0));
        assert(whole.subrange(0, 4) =~= rest.subrange(0, 4));
        assert(single_property(whole) == Some((key, value)));
        assert(tail =~= pod@.subrange(next as int, end as int));
        assert(properties[index] == (key, value));
        assert(properties.skip(index + 1) =~= properties.skip(index).drop_first());
        assert(properties.skip(index + 1) =~= parse_properties(tail)->0);
        if key == SPA_PARAM_BUFFERS_BUFFERS {
            let mut body: Vec<u8> = Vec::new();
            push_slice(&mut body, &pod[8..16]);
            push_slice(&mut body, &pod[16..pos]);
            push_slice(&mut body, &pod[pos..pos + 8]);
            let pushed = push_value(&mut body, &Value::Int(count));
            assert(pushed) by {
                vstd::bytes::lemma_auto_spec_u32_to_from_le_bytes();
            }
            push_slice(&mut body, &pod[next..end]);
            let ghost head = pod@.subrange(8, 16);
            let ghost before = pod@.subrange(16, pos as int);
            let ghost replaced = pod@.subrange(pos as int, pos + 8) + value_pod(Value::Int(count));
            let ghost after = pod@.subrange(next as int, end as int);
            assert(body@ =~= head + before + replaced + after);
            assert(value_pod(Value::Int(count)).len() == 16) by {
                vstd::bytes::lemma_auto_spec_u32_to_from_le_bytes();
            }
            assert(body@.len() <= MAX_BODY);
            let mut out: Vec<u8> = Vec::new();
            push_pod(&mut out, SPA_TYPE_OBJECT, body);
            proof {
                lemma_rewritten_object(
                    pod@,
                    view,
                    index,
                    count,
                    size,
                    pos as int,
                    next as int,
                    out@,
                    body@,
                );
            }
            return BuffersRewrite::Rewritten(out);
        }
        proof {
            lemma_parse_single_property(whole);
            lemma_parse_properties_prefix(pod@.subrange(16, pos as int), whole);
            assert(pod@.subrange(16, pos as int) + whole =~= pod@.subrange(16, next as int));
            assert(properties.take(index) + seq![(key, value)] =~= properties.take(index + 1));
        }
        pos = next;
        proof {
            index = index + 1;
        }
    }
    proof {
        assert(pod@.subrange(pos as int, end as int) =~= Seq::<u8>::empty());
        assert(properties.skip(index).len() == 0);
    }
    BuffersRewrite::NoBuffersProperty
}

/// The object spliced by [`rewrite_buffers`] reads back with its buffer
/// count fixed.
proof fn lemma_rewritten_object(
    pod: Seq<u8>,
    view: ObjectView,
    index: int,
    count: i32,
    size: u32,
    pos: int,
    next: int,
    out: Seq<u8>,
    body: Seq<u8>,
)
    requires
        parse_object(pod) == Some(view),
        view.object_type == SPA_TYPE_OBJECT_PARAM_BUFFERS,
        view.id == SPA_PARAM_BUFFERS,
        u32_at(pod, 0) == size,
        16 <= pos,
        pos + 16 <= next <= 8 + size <= pod.len() <= MAX_BODY,
        0 <= index < view.properties.len(),
        parse_properties(pod.subrange(16, pos)) == Some(view.properties.take(index)),
        parse_properties(pod.subrange(next, 8 + size)) == Some(view.properties.skip(index + 1)),
        view.properties[index].0 == SPA_PARAM_BUFFERS_BUFFERS,
        u32_at(pod, pos) == SPA_PARAM_BUFFERS_BUFFERS,
        single_property(pod.subrange(pos, next)) == Some(view.properties[index]),
        forall|j: int|
            0 <= j < index ==> (#[trigger] view.properties[j]).0 != SPA_PARAM_BUFFERS_BUFFERS,
        body == pod.subrange(8, 16) + pod.subrange(16, pos) + (pod.subrange(pos, pos + 8)
            + value_pod(Value::Int(count))) + pod.subrange(next, 8 + size),
        body.len() <= MAX_BODY,
        out == pod_bytes(SPA_TYPE_OBJECT, body),
    ensures
        buffers_fixed(pod, count, out),
        buffers_spliced(pod, count, out),
        is_pod(out),
{
    vstd::bytes::lemma_auto_spec_u32_to_from_le_bytes();
    let replaced = pod.subrange(pos, pos + 8) + value_pod(Value::Int(count));
    let before = pod.subrange(16, pos);
    let after = pod.subrange(next, 8 + size);
    let entry = (SPA_PARAM_BUFFERS_BUFFERS, PropValueView::Field(PodFieldView::Int(count)));
    lemma_parse_value_field(Value::Int(count));
    lemma_pod_bytes_read(SPA_TYPE_INT, value_pod(Value::Int(count)).subrange(8, 12), Seq::empty());
    let int_body = spec_int_body(count);
    assert(value_pod(Value::Int(count)) + Seq::empty() =~= value_pod(Value::Int(count)));
    lemma_pod_bytes_read(SPA_TYPE_INT, int_body, Seq::empty());
    assert(value_pod(Value::Int(count)) == pod_bytes(SPA_TYPE_INT, int_body));
    assert(replaced.subrange(8, replaced.len() as int) =~= value_pod(Value::Int(count)));
    assert(replaced.subrange(16, 20) =~= int_body);
    assert(replaced.subrange(0, 4) =~= pod.subrange(pos, pos + 4));
    assert(single_property(replaced) == Some(entry));
    lemma_parse_single_property(replaced);
    lemma_parse_properties_prefix(replaced, after);
    lemma_parse_properties_prefix(before, replaced + after);
    let region = before + (replaced + after);
    assert(view.properties.take(index) + (seq![entry] + view.properties.skip(index + 1))
        =~= view.properties.update(index, entry));
    lemma_pod_bytes_read(SPA_TYPE_OBJECT, body, Seq::empty());
    assert(out + Seq::empty() =~= out);
    let old_body = pod.subrange(8, 8 + size);
    assert(body.subrange(0, 4) =~= old_body.subrange(0, 4));
    assert(body.subrange(4, 8) =~= old_body.subrange(4, 8));
    assert(body.subrange(8, body.len() as int) =~= region);
    assert(out.subrange(8, 8 + body.len() as int) == body);
    assert(parse_properties(replaced) == Some(seq![entry]));
    assert(parse_properties(replaced + after) == Some(seq![entry] + view.properties.skip(index + 1)));
    assert(parse_properties(region) == Some(view.properties.update(index, entry)));
    assert(u32_at(body, 0) == view.object_type);
    assert(u32_at(body, 4) == view.id);
    assert(parse_object(out) == Some(
        ObjectView {
            object_type: view.object_type,
            id: view.id,
            properties: view.properties.update(index, entry),
        },
    ));
    assert(first_with_key(view.properties, SPA_PARAM_BUFFERS_BUFFERS, index));
    let object = parse_object(pod)->0;
    assert(object == view);
    assert(ObjectView { properties: object.properties.update(index, entry), ..object } == ObjectView {
        object_type: view.object_type,
        id: view.id,
        properties: view.properties.update(index, entry),
    });
    assert(first_with_key(object.properties, SPA_PARAM_BUFFERS_BUFFERS, index) && parse_object(out)
        == Some(ObjectView { properties: object.properties.update(index, entry), ..object }));
    assert(pod.subrange(8, 16) + before + pod.subrange(pos, pos + 8) =~= pod.subrange(8, pos + 8));
    assert(body =~= pod.subrange(8, pos + 8) + value_pod(Value::Int(count)) + after);
    assert(pod.subrange(16, pos) == before);
}

/// The body of an `Int` POD.
spec fn spec_int_body(value: i32) -> Seq<u8> {
    vstd::bytes::spec_u32_to_le_bytes(value as u32)
}

/// Whether `bytes` are exactly one POD: a header with the size and type of
/// a body, the body, and its padding.
pub open spec fn is_pod(bytes: Seq<u8>) -> bool {
    exists|pod_type: u32, body: Seq<u8>|
        body.len() <= MAX_BODY && bytes == #[trigger] pod_bytes(pod_type, body)
}

/// Serialized parameters retained long enough for a PipeWire API call.
/// Every stored parameter is one well-formed POD.
pub struct Parameters(Vec<Vec<u8>>);

/// Whether every body in `object` fits a POD header.
pub open spec fn object_fits(object: Object) -> bool {
    object_body(object).len() <= MAX_BODY
}

/// The properties of a request for metadata of `meta_type` and `size`
/// bytes, with `features` when given.
pub open spec fn meta_request_properties(meta_type: u32, size: i32, features: Option<i32>) -> Seq<
    (u32, Value),
> {
    let base = seq![
        (SPA_PARAM_META_TYPE, Value::Id(Id(meta_type))),
        (SPA_PARAM_META_SIZE, Value::Int(size)),
    ];
    match features {
        Some(features) => base.push((SPA_PARAM_META_FEATURES, Value::Int(features))),
        None => base,
    }
}

/// Whether `object` requests metadata of `meta_type` and `size` bytes,
/// with `features` when given, and nothing else.
pub open spec fn is_meta_request(object: Object, meta_type: u32, size: i32, features: Option<i32>) -> bool {
    let expected = meta_request_properties(meta_type, size, features);
    &&& object.type_ == SPA_TYPE_OBJECT_PARAM_META
    &&& object.id == SPA_PARAM_META
    &&& object.properties@.len() == expected.len()
    &&& forall|i: int|
        0 <= i < expected.len() ==> {
            &&& (#[trigger] object.properties@[i]).key == expected[i].0
            &&& object.properties@[i].flags.0 == 0
            &&& object.properties@[i].value == expected[i].1
        }
}

/// Whether `pod` is a metadata parameter requesting metadata of
/// `meta_type`.
pub open spec fn requests_meta(pod: Seq<u8>, meta_type: u32) -> bool {
    match parse_object(pod) {
        Some(object) => {
            &&& object.object_type == SPA_TYPE_OBJECT_PARAM_META
            &&& object.id == SPA_PARAM_META
            &&& exists|i: int|
                0 <= i < object.properties.len() && #[trigger] object.properties[i]
                    == (SPA_PARAM_META_TYPE, PropValueView::Field(PodFieldView::Id(meta_type)))
        },
        None => false,
    }
}

/// Whether the POD bytes `pod` request metadata of `meta_type`.
fn pod_requests_meta(pod: &[u8], meta_type: u32) -> (r: bool)
    ensures
        r == requests_meta(pod@, meta_type),
{
    let object = match read_object(pod) {
        Some(object) => object,
        None => return false,
    };
    if object.object_type != SPA_TYPE_OBJECT_PARAM_META || object.id != SPA_PARAM_META {
        return false;
    }
    let ghost view = object@;
    let mut i: usize = 0;
    while i < object.properties.len()
        invariant
            i <= object.properties@.len(),
            view == object@,
            parse_object(pod@) == Some(view),
            view.object_type == SPA_TYPE_OBJECT_PARAM_META,
            view.id == SPA_PARAM_META,
            view.properties.len() == object.properties@.len(),
            forall|j: int|
                0 <= j < i ==> view.properties[j] != (
                    SPA_PARAM_META_TYPE,
                    PropValueView::Field(PodFieldView::Id(meta_type)),
                ),
        decreases object.properties@.len() - i,
    {
        let found = object.properties[i].0 == SPA_PARAM_META_TYPE && match &object.properties[i].1 {
            PropValue::Field(PodField::Id(id)) => *id == meta_type,
            _ => false,
        };
        if found {
            assert(view.properties[i as int] == (
                SPA_PARAM_META_TYPE,
                PropValueView::Field(PodFieldView::Id(meta_type)),
            ));
            return true;
        }
        i = i + 1;
    }
    false
}

impl Parameters {
    #[verifier::type_invariant]
    closed spec fn holds_pods(self) -> bool {
        forall|i: int| 0 <= i < self.0@.len() ==> is_pod(#[trigger] self.0@[i]@)
    }

    /// The serialized parameters, in order.
    pub closed spec fn spec_pods(&self) -> Seq<Seq<u8>> {
        self.0@.map_values(|bytes: Vec<u8>| bytes@)
    }

    /// Serializes `values` into owned POD storage.
    pub fn new(values: Vec<Object>) -> (r: Parameters)
        requires
            forall|i: int| 0 <= i < values@.len() ==> object_fits(#[trigger] values@[i]),
        ensures
            r.spec_pods() == values@.map_values(|object: Object| object_pod(object)),
            forall|i: int|
                0 <= i < values@.len() && (forall|j: int|
                    0 <= j < values@[i].properties@.len() ==> property_round_trips(
                        #[trigger] values@[i].properties@[j],
                    )) ==> parse_object(#[trigger] r.spec_pods()[i]) == Some(
                    ObjectView {
                        object_type: values@[i].type_,
                        id: values@[i].id,
                        properties: values@[i].properties@.map_values(
                            |property: Property| property_view_of(property),
                        ),
                    },
                ),
    {
        let mut pods: Vec<Vec<u8>> = Vec::new();
        let mut i: usize = 0;
        while i < values.len()
            invariant
                i <= values@.len(),
                forall|j: int| 0 <= j < values@.len() ==> object_fits(#[trigger] values@[j]),
                pods@.len() == i,
                forall|j: int| 0 <= j < i ==> (#[trigger] pods@[j])@ == object_pod(values@[j]),
                forall|j: int| 0 <= j < i ==> is_pod(#[trigger] pods@[j]@),
            decreases values@.len() - i,
        {
            let bytes = match serialize_object(&values[i]) {
                Some(bytes) => bytes,
                None => {
                    assert(object_fits(values@[i as int]));
                    return Parameters(pods);
                },
            };
            proof {
                assert(is_pod(bytes@)) by {
                    assert(bytes@ == pod_bytes(SPA_TYPE_OBJECT, object_body(values@[i as int])));
                }
            }
            pods.push(bytes);
            i = i + 1;
        }
        let r = Parameters(pods);
        assert(r.spec_pods() =~= values@.map_values(|object: Object| object_pod(object)));
        proof {
            assert forall|i: int|
                0 <= i < values@.len() && (forall|j: int|
                    0 <= j < values@[i].properties@.len() ==> property_round_trips(
                        #[trigger] values@[i].properties@[j],
                    )) implies parse_object(#[trigger] r.spec_pods()[i]) == Some(
                ObjectView {
                    object_type: values@[i].type_,
                    id: values@[i].id,
                    properties: values@[i].properties@.map_values(
                        |property: Property| property_view_of(property),
                    ),
                },
            ) by {
                assert(object_fits(values@[i]));
                lemma_object_round_trip(values@[i]);
            }
        }
        r
    }

    /// Borrowed POD bytes valid for the lifetime of this collection.
    pub fn pods(&self) -> (r: Vec<&[u8]>)
        ensures
            r@.len() == self.spec_pods().len(),
            forall|i: int| 0 <= i < r@.len() ==> (#[trigger] r@[i])@ == self.spec_pods()[i],
            forall|i: int| 0 <= i < r@.len() ==> is_pod(#[trigger] r@[i]@),
    {
        proof {
            use_type_invariant(self);
        }
        let mut out: Vec<&[u8]> = Vec::new();
        let mut i: usize = 0;
        while i < self.0.len()
            invariant
                i <= self.0@.len(),
                out@.len() == i,
                forall|j: int| 0 <= j < i ==> (#[trigger] out@[j])@ == self.0@[j]@,
                forall|j: int| 0 <= j < self.0@.len() ==> is_pod(#[trigger] self.0@[j]@),
            decreases self.0@.len() - i,
        {
            out.push(self.0[i].as_slice());
            i = i + 1;
        }
        out
    }

    /// Replaces the buffer count of the first buffers parameter with one
    /// fixed count.
    ///
    /// This does not allocate or resize a PipeWire buffer pool. The value is
    /// negotiated when the port is connected.
    pub fn with_fixed_buffer_count(self, count: u32) -> (r: Result<Parameters, &'static str>)
        requires
            forall|i: int|
                0 <= i < self.spec_pods().len() ==> (#[trigger] self.spec_pods()[i]).len()
                    <= MAX_BODY,
        ensures
            count > i32::MAX ==> (r matches Err(message) && message@
                == "buffer count exceeds SPA Int"@),
            count <= i32::MAX && count < 2 ==> (r matches Err(message) && message@
                == "buffer count must be at least two"@),
            2 <= count <= i32::MAX ==> match r {
                Ok(fixed) => exists|index: int, bytes: Seq<u8>|
                    0 <= index < self.spec_pods().len() && (forall|j: int|
                        0 <= j < index ==> !is_buffers_object(#[trigger] self.spec_pods()[j]))
                        && buffers_fixed(self.spec_pods()[index], count as i32, bytes)
                        && buffers_spliced(self.spec_pods()[index], count as i32, bytes)
                        && fixed.spec_pods() == self.spec_pods().update(index, bytes),
                Err(message) => ((message@ == "SPA_PARAM_Buffers has no buffers property"@
                    && exists|index: int|
                    0 <= index < self.spec_pods().len() && (forall|j: int|
                        0 <= j < index ==> !is_buffers_object(#[trigger] self.spec_pods()[j]))
                        && is_buffers_object(self.spec_pods()[index]) && forall|k: int|
                        0 <= k < parse_object(self.spec_pods()[index])->0.properties.len() ==> (
                        #[trigger] parse_object(self.spec_pods()[index])->0.properties[k]).0
                            != SPA_PARAM_BUFFERS_BUFFERS)) || (message@
                    == "parameters do not contain SPA_PARAM_Buffers"@ && forall|j: int|
                    0 <= j < self.spec_pods().len() ==> !is_buffers_object(
                        #[trigger] self.spec_pods()[j],
                    )),
            },
    {
        if count > 0x7fff_ffff {
            return Err("buffer count exceeds SPA Int");
        }
        let fixed_count = count as i32;
        if fixed_count < 2 {
            return Err("buffer count must be at least two");
        }
        proof {
            use_type_invariant(&self);
        }
        let ghost pods = self.spec_pods();
        let Parameters(mut list) = self;
        let mut i: usize = 0;
        while i < list.len()
            invariant
                i <= list@.len(),
                pods == self.spec_pods(),
                pods == list@.map_values(|bytes: Vec<u8>| bytes@),
                forall|j: int| 0 <= j < list@.len() ==> is_pod(#[trigger] list@[j]@),
                forall|j: int| 0 <= j < pods.len() ==> (#[trigger] pods[j]).len() <= MAX_BODY,
                forall|j: int| 0 <= j < i ==> !is_buffers_object(#[trigger] pods[j]),
                2 <= count <= i32::MAX,
                fixed_count == count as i32,
            decreases list@.len() - i,
        {
            assert(pods[i as int] == list@[i as int]@);
            match rewrite_buffers(list[i].as_slice(), fixed_count) {
                BuffersRewrite::NotBuffers => {},
                BuffersRewrite::NoBuffersProperty => {
                    return Err("SPA_PARAM_Buffers has no buffers property");
                },
                BuffersRewrite::Rewritten(bytes) => {
                    let ghost index = i as int;
                    let ghost fixed_bytes = bytes@;
                    list[i] = bytes;
                    let fixed = Parameters(list);
                    assert(fixed.spec_pods() =~= pods.update(index, fixed_bytes));
                    return Ok(fixed);
                },
            }
            i = i + 1;
        }
        Err("parameters do not contain SPA_PARAM_Buffers")
    }

    /// Removes the first metadata request for `meta_type`.
    pub fn without_meta(self, meta_type: u32) -> (r: Result<Parameters, &'static str>)
        ensures
            match r {
                Ok(remaining) => exists|index: int|
                    0 <= index < self.spec_pods().len() && requests_meta(
                        self.spec_pods()[index],
                        meta_type,
                    ) && (forall|j: int|
                        0 <= j < index ==> !requests_meta(#[trigger] self.spec_pods()[j], meta_type))
                        && remaining.spec_pods() == self.spec_pods().remove(index),
                Err(message) => message@
                    == "parameters do not contain the requested metadata type"@ && forall|j: int|
                    0 <= j < self.spec_pods().len() ==> !requests_meta(
                        #[trigger] self.spec_pods()[j],
                        meta_type,
                    ),
            },
    {
        let ghost pods = self.spec_pods();
        proof {
            use_type_invariant(&self);
        }
        let Parameters(mut list) = self;
        let mut i: usize = 0;
        while i < list.len()
            invariant
                i <= list@.len(),
                pods == self.spec_pods(),
                pods == list@.map_values(|bytes: Vec<u8>| bytes@),
                forall|j: int| 0 <= j < list@.len() ==> is_pod(#[trigger] list@[j]@),
                forall|j: int| 0 <= j < i ==> !requests_meta(#[trigger] pods[j], meta_type),
            decreases list@.len() - i,
        {
            assert(pods[i as int] == list@[i as int]@);
            if pod_requests_meta(list[i].as_slice(), meta_type) {
                let ghost index = i as int;
                let ghost before = list@;
                let _removed = list.remove(i);
                assert(forall|j: int| 0 <= j < list@.len() ==> #[trigger] list@[j] == before.remove(index)[j]);
                let remaining = Parameters(list);
                assert(remaining.spec_pods() =~= pods.remove(index));
                assert(0 <= index < pods.len() && requests_meta(pods[index], meta_type) && (forall|j: int|
                    0 <= j < index ==> !requests_meta(#[trigger] pods[j], meta_type))
                    && remaining.spec_pods() == pods.remove(index));
                return Ok(remaining);
            }
            i = i + 1;
        }
        Err("parameters do not contain the requested metadata type")
    }

    /// Appends a request for metadata of `meta_type` and `size` bytes, with
    /// `features` when given.
    fn with_meta(self, meta_type: u32, size: usize, features: Option<i32>) -> (r: Parameters)
        requires
            size <= i32::MAX,
        ensures
            exists|object: Object|
                is_meta_request(object, meta_type, size as i32, features) && r.spec_pods()
                    == self.spec_pods().push(object_pod(object)),
    {
        let mut properties = vec![
            Property::new(SPA_PARAM_META_TYPE, Value::Id(Id(meta_type))),
            Property::new(SPA_PARAM_META_SIZE, Value::Int(size as i32)),
        ];
        match features {
            Some(features) => properties.push(
                Property::new(SPA_PARAM_META_FEATURES, Value::Int(features)),
            ),
            None => {},
        }
        let object = Object { type_: SPA_TYPE_OBJECT_PARAM_META, id: SPA_PARAM_META, properties };
        proof {
            let expected = meta_request_properties(meta_type, size as i32, features);
            assert forall|i: int| 0 <= i < expected.len() implies {
                &&& (#[trigger] object.properties@[i]).key == expected[i].0
                &&& object.properties@[i].flags.0 == 0
                &&& object.properties@[i].value == expected[i].1
            } by {
                if i == 0 {
                } else if i == 1 {
                } else {
                }
            }
            assert(is_meta_request(object, meta_type, size as i32, features));
        }
        let ghost requested = object;
        let bytes = match serialize_object(&object) {
            Some(bytes) => bytes,
            None => {
                proof {
                    lemma_meta_request_fits(requested, meta_type, size as i32, features);
                }
                return self;
            },
        };
        proof {
            lemma_meta_request_fits(requested, meta_type, size as i32, features);
            assert(is_pod(bytes@)) by {
                assert(bytes@ == pod_bytes(SPA_TYPE_OBJECT, object_body(requested)));
            }
            use_type_invariant(&self);
        }
        let Parameters(mut pods) = self;
        pods.push(bytes);
        let r = Parameters(pods);
        assert(r.spec_pods() =~= self.spec_pods().push(object_pod(requested)));
        r
    }

    /// Requests PipeWireAO Version 1 progressive metadata on every buffer.
    ///
    /// The metadata type is deliberately not placed in the buffers
    /// parameter's metadata mask, which cannot represent custom types.
    pub fn with_progressive_meta(self) -> (r: Parameters)
        ensures
            exists|object: Object|
                is_meta_request(object, META_TYPE_PROGRESSIVE, META_SIZE_PROGRESSIVE as i32, None)
                    && r.spec_pods() == self.spec_pods().push(object_pod(object)),
    {
        self.with_meta(META_TYPE_PROGRESSIVE, META_SIZE_PROGRESSIVE, None)
    }

    /// Requests PipeWireAO Version 1 acquisition metadata on every buffer.
    pub fn with_acquisition_meta(self) -> (r: Parameters)
        ensures
            exists|object: Object|
                is_meta_request(
                    object,
                    META_TYPE_ACQUISITION,
                    META_SIZE_ACQUISITION as i32,
                    Some(META_FEATURE_ACQUISITION_VERSION_1),
                ) && r.spec_pods() == self.spec_pods().push(object_pod(object)),
    {
        self.with_meta(
            META_TYPE_ACQUISITION,
            META_SIZE_ACQUISITION,
            Some(META_FEATURE_ACQUISITION_VERSION_1),
        )
    }
}

/// The metadata requests that the parameters gain read back as requests
/// for their metadata type and size, with their features when given, and
/// [`Parameters::without_meta`] finds them by their type.
pub proof fn lemma_meta_request_reads_back(
    object: Object,
    meta_type: u32,
    size: i32,
    features: Option<i32>,
)
    requires
        is_meta_request(object, meta_type, size, features),
    ensures
        parse_object(object_pod(object)) == Some(
            ObjectView {
                object_type: SPA_TYPE_OBJECT_PARAM_META,
                id: SPA_PARAM_META,
                properties: meta_request_properties(meta_type, size, features).map_values(
                    |entry: (u32, Value)| (entry.0, PropValueView::Field(field_view_of(entry.1))),
                ),
            },
        ),
        requests_meta(object_pod(object), meta_type),
{
    lemma_meta_request_fits(object, meta_type, size, features);
    let expected = meta_request_properties(meta_type, size, features);
    assert forall|i: int| 0 <= i < object.properties@.len() implies property_round_trips(
        #[trigger] object.properties@[i],
    ) by {
        if i == 0 {
        } else if i == 1 {
        } else {
        }
    }
    lemma_object_round_trip(object);
    let decoded = object.properties@.map_values(|property: Property| property_view_of(property));
    let wanted = expected.map_values(
        |entry: (u32, Value)| (entry.0, PropValueView::Field(field_view_of(entry.1))),
    );
    assert(decoded =~= wanted);
    assert(decoded[0] == (SPA_PARAM_META_TYPE, PropValueView::Field(PodFieldView::Id(meta_type))));
    assert(parse_object(object_pod(object))->0.properties[0] == (
        SPA_PARAM_META_TYPE,
        PropValueView::Field(PodFieldView::Id(meta_type)),
    ));
}

/// A metadata request fits POD headers.
proof fn lemma_meta_request_fits(object: Object, meta_type: u32, size: i32, features: Option<i32>)
    requires
        is_meta_request(object, meta_type, size, features),
    ensures
        object_fits(object),
{
    vstd::bytes::lemma_auto_spec_u32_to_from_le_bytes();
    reveal_with_fuel(crate::pod_wire::properties_bytes, 4);
}

} // verus!
