//! Sequences of attributes: the value of a nested attribute, or the body of
//! a message. One decoder and one encoder serve every level.

use vstd::prelude::*;
use crate::error::Attribute;
use crate::error::Cause;
use crate::error::ParseError;
use crate::nla::Emitable;
use crate::nla::encode;
use crate::nla::Nla;
use crate::nla::NlaSlice;
use crate::nla::wire_kind;
use crate::packet_core::nlas_iter;
use crate::packet_core::nlas_next;
use crate::packet_core::nlas_rest;
use crate::wire::footprint;
use crate::wire::is_attribute;
use crate::wire::kind_field;
use crate::wire::lemma_frame_len;
use crate::wire::lemma_frame_reads;
use crate::wire::value_field;

verus! {

/// What the decode of a sequence returned, with the values replaced by their
/// models.
pub open spec fn model_all<T: DeepView>(r: Result<Vec<T>, ParseError>) -> Result<
    Seq<T::V>,
    ParseError,
> {
    match r {
        Ok(nlas) => Ok(nlas.deep_view()),
        Err(e) => Err(e),
    }
}

/// The bytes of a sequence of attributes: one after the other, each padded
/// by itself.
pub open spec fn encode_all<T: Nla>(vs: Seq<T::V>) -> Seq<u8>
    decreases vs.len(),
{
    if vs.len() == 0 {
        Seq::empty()
    } else {
        encode::<T>(vs[0]) + encode_all::<T>(vs.skip(1))
    }
}

/// The footprints of the attributes of a sequence, added up.
pub open spec fn footprints<T: Nla>(vs: Seq<T::V>) -> nat
    decreases vs.len(),
{
    if vs.len() == 0 {
        0
    } else {
        encode::<T>(vs[0]).len() + footprints::<T>(vs.skip(1))
    }
}

/// Whether every attribute of a sequence can be written.
pub open spec fn all_encodable<T: Nla>(vs: Seq<T::V>) -> bool {
    forall|i: int| 0 <= i < vs.len() ==> T::encodable_of(#[trigger] vs[i])
}

/// Whether every attribute of a sequence is its own decoding.
pub open spec fn all_canonical<T: Nla>(vs: Seq<T::V>) -> bool {
    forall|i: int| 0 <= i < vs.len() ==> T::canonical(#[trigger] vs[i])
}

/// A decoded sequence with `first` put in front; an error stays.
pub open spec fn prepend<V>(first: Seq<V>, others: Result<Seq<V>, ParseError>) -> Result<
    Seq<V>,
    ParseError,
> {
    match others {
        Ok(vs) => Ok(first + vs),
        Err(e) => Err(e),
    }
}

/// The attributes that `b` decodes to, read one after the other, each
/// followed by its padding. The first attribute that is not whole, or whose
/// value does not decode, decides the error; a framing error names
/// `context`, the attribute whose value `b` is.
pub open spec fn decode_all<T: Nla>(b: Seq<u8>, context: Option<Attribute>) -> Result<
    Seq<T::V>,
    ParseError,
>
    decreases b.len(),
{
    if b.len() == 0 {
        Ok(Seq::empty())
    } else if !is_attribute(b) {
        Err(ParseError::framing(context))
    } else {
        match T::decode(kind_field(b), value_field(b)) {
            Err(e) => Err(e),
            Ok(first) => prepend(
                seq![first],
                decode_all::<T>(b.skip(footprint(b) as int), context),
            ),
        }
    }
}

/// Decodes the value of a nested attribute, or the body of a message: a
/// sequence of attributes of one kind.
pub fn parse_all<T: Nla>(payload: &[u8], context: Option<Attribute>) -> (r: Result<
    Vec<T>,
    ParseError,
>)
    ensures
        model_all(r) == decode_all::<T>(payload@, context),
{
    let mut it = nlas_iter(payload);
    let mut nlas: Vec<T> = Vec::new();
    assert(nlas.deep_view() =~= Seq::<T::V>::empty());
    loop
        invariant
            decode_all::<T>(payload@, context) == prepend(
                nlas.deep_view(),
                decode_all::<T>(nlas_rest(it), context),
            ),
        decreases nlas_rest(it).len(),
    {
        let ghost before = nlas.deep_view();
        match nlas_next(&mut it) {
            None => {
                assert(before + Seq::<T::V>::empty() =~= before);
                return Ok(nlas);
            },
            Some(Err(_)) => {
                return Err(ParseError { attribute: context, cause: Cause::Framing });
            },
            Some(Ok(bytes)) => {
                let buf = NlaSlice::from_attribute(bytes);
                let nla = T::parse(&buf)?;
                nlas.push(nla);
                proof {
                    let first = nla.deep_view();
                    assert(nlas.deep_view() =~= before.push(first));
                    match decode_all::<T>(nlas_rest(it), context) {
                        Ok(others) => {
                            assert(before + (seq![first] + others) =~= before.push(first)
                                + others);
                        },
                        Err(_) => {},
                    }
                }
            },
        }
    }
}

/// A sequence takes up exactly the footprints of its attributes, a multiple
/// of four bytes.
pub proof fn lemma_encode_all_len<T: Nla>(vs: Seq<T::V>)
    ensures
        encode_all::<T>(vs).len() == footprints::<T>(vs),
        encode_all::<T>(vs).len() % 4 == 0,
    decreases vs.len(),
{
    if vs.len() > 0 {
        lemma_encode_all_len::<T>(vs.skip(1));
        lemma_frame_len(wire_kind::<T>(vs[0]), T::value_of(vs[0]));
    }
}

/// A sequence encodes to the encodings of its parts, one after the other.
pub proof fn lemma_encode_all_concat<T: Nla>(a: Seq<T::V>, b: Seq<T::V>)
    ensures
        encode_all::<T>(a + b) == encode_all::<T>(a) + encode_all::<T>(b),
    decreases a.len(),
{
    if a.len() == 0 {
        assert(a + b =~= b);
        assert(encode_all::<T>(a) + encode_all::<T>(b) =~= encode_all::<T>(b));
    } else {
        let first = encode::<T>(a[0]);
        let others = encode_all::<T>(a.skip(1));
        lemma_encode_all_concat::<T>(a.skip(1), b);
        assert((a + b).skip(1) =~= a.skip(1) + b);
        assert((a + b)[0] == a[0]);
        assert(first + (others + encode_all::<T>(b)) =~= (first + others) + encode_all::<T>(b));
    }
}

/// One more attribute adds its encoding at the end, and no prefix of a
/// sequence takes up more bytes than the sequence.
pub proof fn lemma_encode_all_take<T: Nla>(vs: Seq<T::V>, i: int)
    requires
        0 <= i < vs.len(),
    ensures
        encode_all::<T>(vs.take(i + 1)) == encode_all::<T>(vs.take(i)) + encode::<T>(vs[i]),
        encode_all::<T>(vs.take(i + 1)).len() <= encode_all::<T>(vs).len(),
{
    let one = seq![vs[i]];
    assert(vs.take(i + 1) =~= vs.take(i) + one);
    lemma_encode_all_concat::<T>(vs.take(i), one);
    assert(one.skip(1) =~= Seq::<T::V>::empty());
    assert(encode_all::<T>(one) =~= encode::<T>(vs[i])) by {
        reveal_with_fuel(encode_all, 2);
    }
    assert(vs =~= vs.take(i + 1) + vs.skip(i + 1));
    lemma_encode_all_concat::<T>(vs.take(i + 1), vs.skip(i + 1));
}

/// The number of bytes that a sequence of attributes takes up.
pub fn buffer_len_all<T: Nla>(nlas: &Vec<T>) -> (n: usize)
    requires
        all_encodable::<T>(nlas.deep_view()),
        encode_all::<T>(nlas.deep_view()).len() <= usize::MAX,
    ensures
        n == encode_all::<T>(nlas.deep_view()).len(),
{
    let ghost vs = nlas.deep_view();
    let mut total: usize = 0;
    let mut i: usize = 0;
    assert(vs.take(0) =~= Seq::<T::V>::empty());
    while i < nlas.len()
        invariant
            vs == nlas.deep_view(),
            all_encodable::<T>(vs),
            encode_all::<T>(vs).len() <= usize::MAX,
            i <= nlas.len(),
            total == encode_all::<T>(vs.take(i as int)).len(),
        decreases nlas.len() - i,
    {
        proof {
            lemma_encode_all_take::<T>(vs, i as int);
            assert(vs[i as int] == nlas[i as int].deep_view());
        }
        total = total + nlas[i].buffer_len();
        i = i + 1;
    }
    assert(vs.take(i as int) =~= vs);
    total
}

/// Writes a sequence of attributes at the start of `buffer`, one after the
/// other, in the order given. What follows them stays.
pub fn emit_all<T: Nla>(nlas: &Vec<T>, buffer: &mut [u8])
    requires
        all_encodable::<T>(nlas.deep_view()),
        old(buffer)@.len() >= encode_all::<T>(nlas.deep_view()).len(),
    ensures
        final(buffer)@ == encode_all::<T>(nlas.deep_view()) + old(buffer)@.skip(
            encode_all::<T>(nlas.deep_view()).len() as int,
        ),
{
    let ghost vs = nlas.deep_view();
    let capacity = buffer.len();
    let mut start: usize = 0;
    let mut i: usize = 0;
    assert(vs.take(0) =~= Seq::<T::V>::empty());
    assert(buffer@ =~= encode_all::<T>(vs.take(0)) + old(buffer)@.skip(0));
    while i < nlas.len()
        invariant
            vs == nlas.deep_view(),
            all_encodable::<T>(vs),
            buffer@.len() == capacity,
            buffer@.len() == old(buffer)@.len(),
            buffer@.len() >= encode_all::<T>(vs).len(),
            i <= nlas.len(),
            start == encode_all::<T>(vs.take(i as int)).len(),
            buffer@ == encode_all::<T>(vs.take(i as int)) + old(buffer)@.skip(start as int),
        decreases nlas.len() - i,
    {
        proof {
            lemma_encode_all_take::<T>(vs, i as int);
            assert(vs[i as int] == nlas[i as int].deep_view());
        }
        let ghost before = buffer@;
        let attr_len = nlas[i].buffer_len();
        let (_, rest) = buffer.split_at_mut(start);
        nlas[i].emit(rest);
        proof {
            let done = encode_all::<T>(vs.take(i as int));
            let one = encode::<T>(vs[i as int]);
            let kept = old(buffer)@.skip(start + attr_len);
            assert(before.subrange(0, start as int) =~= done);
            assert(before.subrange(start as int, before.len() as int).skip(one.len() as int)
                =~= kept);
            assert(buffer@ =~= (done + one) + kept);
            assert(start + attr_len == encode_all::<T>(vs.take(i + 1)).len());
            assert(start + attr_len <= encode_all::<T>(vs).len());
        }
        start = start + attr_len;
        i = i + 1;
    }
    assert(vs.take(i as int) =~= vs);
}

/// The number of bytes that a sequence of attributes takes up, where every
/// one of them can be written and together they take up no more than
/// `limit` bytes; `None` where not.
pub fn checked_len_all<T: Nla>(nlas: &Vec<T>, limit: usize) -> (r: Option<usize>)
    ensures
        r is Some <==> all_encodable::<T>(nlas.deep_view()) && encode_all::<T>(
            nlas.deep_view(),
        ).len() <= limit,
        r matches Some(n) ==> n == encode_all::<T>(nlas.deep_view()).len(),
{
    let ghost vs = nlas.deep_view();
    let mut total: usize = 0;
    let mut i: usize = 0;
    assert(vs.take(0) =~= Seq::<T::V>::empty());
    while i < nlas.len()
        invariant
            vs == nlas.deep_view(),
            i <= nlas.len(),
            all_encodable::<T>(vs.take(i as int)),
            total == encode_all::<T>(vs.take(i as int)).len(),
            total <= limit,
        decreases nlas.len() - i,
    {
        proof {
            lemma_encode_all_take::<T>(vs, i as int);
            assert(vs[i as int] == nlas[i as int].deep_view());
        }
        if !nlas[i].encodable() {
            return None;
        }
        let attr_len = nlas[i].buffer_len();
        if attr_len > limit - total {
            return None;
        }
        total = total + attr_len;
        i = i + 1;
        assert forall|j: int| 0 <= j < i implies T::encodable_of(
            #[trigger] vs.take(i as int)[j],
        ) by {
            if j < i - 1 {
                assert(vs.take(i as int)[j] == vs.take(i - 1)[j]);
            }
        }
    }
    assert(vs.take(i as int) =~= vs);
    Some(total)
}

/// Whatever a sequence decodes to is its own decoding.
pub proof fn lemma_decode_all_canonical<T: Nla>(b: Seq<u8>, context: Option<Attribute>)
    ensures
        decode_all::<T>(b, context) matches Ok(vs) ==> all_canonical::<T>(vs),
    decreases b.len(),
{
    if b.len() > 0 && is_attribute(b) {
        let others = decode_all::<T>(b.skip(footprint(b) as int), context);
        T::lemma_decode_canonical(kind_field(b), value_field(b));
        lemma_decode_all_canonical::<T>(b.skip(footprint(b) as int), context);
        if let Ok(first) = T::decode(kind_field(b), value_field(b)) {
            if let Ok(rest) = others {
                let vs = seq![first] + rest;
                assert forall|i: int| 0 <= i < vs.len() implies T::canonical(#[trigger] vs[i]) by {
                    if i > 0 {
                        assert(vs[i] == rest[i - 1]);
                    }
                }
            }
        }
    }
}

/// However a sequence goes on, a written attribute at its start is read
/// back as it was, and reading resumes behind its padding, at the next
/// attribute.
pub proof fn lemma_decode_all_first<T: Nla>(v: T::V, rest: Seq<u8>, context: Option<Attribute>)
    requires
        T::encodable_of(v),
        T::canonical(v),
    ensures
        encode::<T>(v).len() % 4 == 0,
        decode_all::<T>(encode::<T>(v) + rest, context) == prepend(
            seq![v],
            decode_all::<T>(rest, context),
        ),
{
    let b = encode::<T>(v) + rest;
    T::lemma_value_fits(v);
    T::lemma_decode_encode(v);
    lemma_frame_len(wire_kind::<T>(v), T::value_of(v));
    lemma_frame_reads(wire_kind::<T>(v), T::value_of(v), rest);
    assert(b.len() > 0);
    assert(is_attribute(b));
    assert(T::decode(kind_field(b), value_field(b)) == Ok::<T::V, ParseError>(v));
    assert(b.skip(footprint(b) as int) == rest);
}

/// Decoding the encoding of a sequence gives the sequence back, in its
/// order.
pub proof fn lemma_decode_all_encode_all<T: Nla>(vs: Seq<T::V>, context: Option<Attribute>)
    requires
        all_encodable::<T>(vs),
        all_canonical::<T>(vs),
    ensures
        decode_all::<T>(encode_all::<T>(vs), context) == Ok::<Seq<T::V>, ParseError>(vs),
    decreases vs.len(),
{
    if vs.len() == 0 {
        assert(vs =~= Seq::<T::V>::empty());
    } else {
        let others = vs.skip(1);
        assert forall|i: int| 0 <= i < others.len() implies T::encodable_of(#[trigger] others[i])
            && T::canonical(others[i]) by {
            assert(others[i] == vs[i + 1]);
        }
        lemma_decode_all_encode_all::<T>(others, context);
        lemma_decode_all_first::<T>(vs[0], encode_all::<T>(others), context);
        assert(seq![vs[0]] + others =~= vs);
    }
}

} // verus!
