//! Self-delimiting wire records and the lists that hold them back to back.
//!
//! A record knows how to read itself from the front of a byte string, how
//! many bytes it took, and how to write itself out again.  A list of records
//! has no count: it ends where its enclosing byte range ends.

use vstd::prelude::*;
use bytes::BytesMut;
use crate::buf::buf_bytes;
use crate::wire::ParseError;

verus! {

/// The models of a sequence of values.
pub open spec fn views<T: View>(v: Seq<T>) -> Seq<T::V> {
    v.map_values(|x: T| x@)
}

pub trait Record: Sized + View {
    /// What decoding the front of `s` gives: the record and the bytes it took.
    spec fn spec_parse(s: Seq<u8>) -> Result<(Self::V, nat), ParseError>;

    /// The bytes that encode a record.
    spec fn spec_bytes(m: Self::V) -> Seq<u8>;

    /// A record that can be written out and read back as it is.
    spec fn spec_wf(m: Self::V) -> bool;

    /// A record that can be written out: every length fits its field.
    spec fn spec_fits(m: Self::V) -> bool;

    proof fn lemma_wf_fits(m: Self::V)
        requires
            Self::spec_wf(m),
        ensures
            Self::spec_fits(m),
    ;

    proof fn lemma_round_trip(m: Self::V, rest: Seq<u8>)
        requires
            Self::spec_wf(m),
        ensures
            Self::spec_parse(Self::spec_bytes(m) + rest) == Ok::<(Self::V, nat), ParseError>(
                (m, Self::spec_bytes(m).len()),
            ),
            Self::spec_bytes(m).len() > 0,
    ;

    fn parse(input: &[u8]) -> (r: Result<(Self, usize), ParseError>)
        ensures
            match r {
                Ok((x, n)) => Self::spec_parse(input@) == Ok::<(Self::V, nat), ParseError>(
                    (x@, n as nat),
                ) && 0 < n <= input@.len(),
                Err(e) => Self::spec_parse(input@) == Err::<(Self::V, nat), ParseError>(e),
            },
    ;

    fn emit(&self, buf: &mut BytesMut)
        requires
            Self::spec_fits(self@),
            buf_bytes(*old(buf)).len() + Self::spec_bytes(self@).len() <= isize::MAX,
        ensures
            buf_bytes(*final(buf)) == buf_bytes(*old(buf)) + Self::spec_bytes(self@),
    ;

    fn wire_len(&self) -> (r: usize)
        requires
            Self::spec_fits(self@),
        ensures
            r as nat == Self::spec_bytes(self@).len(),
    ;
}

/// Reads records back to back until `s` is used up; the first refusal fails the list.
pub open spec fn parse_many<T: Record>(s: Seq<u8>) -> Result<Seq<T::V>, ParseError>
    decreases s.len(),
{
    if s.len() == 0 {
        Ok(Seq::empty())
    } else {
        match T::spec_parse(s) {
            Err(e) => Err(e),
            Ok((m, n)) => if 0 < n <= s.len() {
                match parse_many::<T>(s.subrange(n as int, s.len() as int)) {
                    Err(e) => Err(e),
                    Ok(ms) => Ok(seq![m] + ms),
                }
            } else {
                Err(ParseError::Invalid)
            },
        }
    }
}

/// The records of `ms` written back to back.
pub open spec fn many_bytes<T: Record>(ms: Seq<T::V>) -> Seq<u8>
    decreases ms.len(),
{
    if ms.len() == 0 {
        Seq::empty()
    } else {
        many_bytes::<T>(ms.drop_last()) + T::spec_bytes(ms.last())
    }
}

pub open spec fn wf_many<T: Record>(ms: Seq<T::V>) -> bool {
    forall|i: int| 0 <= i < ms.len() ==> #[trigger] T::spec_wf(ms[i])
}

pub open spec fn fits_many<T: Record>(ms: Seq<T::V>) -> bool {
    forall|i: int| 0 <= i < ms.len() ==> #[trigger] T::spec_fits(ms[i])
}

pub proof fn lemma_wf_fits_many<T: Record>(ms: Seq<T::V>)
    requires
        wf_many::<T>(ms),
    ensures
        fits_many::<T>(ms),
{
    assert forall|i: int| 0 <= i < ms.len() implies #[trigger] T::spec_fits(ms[i]) by {
        T::lemma_wf_fits(ms[i]);
    }
}

pub open spec fn prepend<M>(pre: Seq<M>, r: Result<Seq<M>, ParseError>) -> Result<
    Seq<M>,
    ParseError,
> {
    match r {
        Ok(ms) => Ok(pre + ms),
        Err(e) => Err(e),
    }
}

pub proof fn lemma_many_bytes_head<T: Record>(ms: Seq<T::V>)
    requires
        ms.len() > 0,
    ensures
        many_bytes::<T>(ms) == T::spec_bytes(ms[0]) + many_bytes::<T>(ms.drop_first()),
    decreases ms.len(),
{
    if ms.len() == 1 {
        assert(ms.drop_last() =~= Seq::<T::V>::empty());
        assert(ms.drop_first() =~= Seq::<T::V>::empty());
        assert(many_bytes::<T>(ms.drop_last()) =~= Seq::<u8>::empty());
        assert(many_bytes::<T>(ms.drop_first()) =~= Seq::<u8>::empty());
        assert(ms.last() == ms[0]);
        assert(many_bytes::<T>(ms) =~= T::spec_bytes(ms[0]));
    } else {
        lemma_many_bytes_head::<T>(ms.drop_last());
        assert(ms.drop_last().drop_first() =~= ms.drop_first().drop_last());
        assert(ms.drop_first().last() == ms.last());
        assert(many_bytes::<T>(ms) =~= T::spec_bytes(ms[0]) + many_bytes::<T>(ms.drop_first()));
    }
}

pub proof fn lemma_many_bytes_push<T: Record>(ms: Seq<T::V>, m: T::V)
    ensures
        many_bytes::<T>(ms.push(m)) == many_bytes::<T>(ms) + T::spec_bytes(m),
{
    assert(ms.push(m).drop_last() =~= ms);
}

pub proof fn lemma_many_bytes_prefix<T: Record>(ms: Seq<T::V>, i: int)
    requires
        0 <= i <= ms.len(),
    ensures
        many_bytes::<T>(ms.subrange(0, i)).len() <= many_bytes::<T>(ms).len(),
    decreases ms.len() - i,
{
    if i < ms.len() {
        lemma_many_bytes_prefix::<T>(ms, i + 1);
        assert(ms.subrange(0, i + 1).drop_last() =~= ms.subrange(0, i));
    } else {
        assert(ms.subrange(0, i) =~= ms);
    }
}

/// Writing a list of valid records and reading it back gives the same list.
pub proof fn lemma_many_round_trip<T: Record>(ms: Seq<T::V>)
    requires
        wf_many::<T>(ms),
    ensures
        parse_many::<T>(many_bytes::<T>(ms)) == Ok::<Seq<T::V>, ParseError>(ms),
    decreases ms.len(),
{
    if ms.len() == 0 {
        assert(ms =~= Seq::<T::V>::empty());
    } else {
        lemma_many_bytes_head::<T>(ms);
        let tail = ms.drop_first();
        let tb = many_bytes::<T>(tail);
        let s = many_bytes::<T>(ms);
        assert(T::spec_wf(ms[0]));
        T::lemma_round_trip(ms[0], tb);
        let n = T::spec_bytes(ms[0]).len();
        assert(s.subrange(n as int, s.len() as int) =~= tb);
        assert(wf_many::<T>(tail)) by {
            assert forall|i: int| 0 <= i < tail.len() implies #[trigger] T::spec_wf(tail[i]) by {
                assert(tail[i] == ms[i + 1]);
            }
        }
        lemma_many_round_trip::<T>(tail);
        assert(seq![ms[0]] + tail =~= ms);
    }
}

/// Reading a list that starts with the bytes of valid records gives those
/// records, then whatever reading the rest gives.
pub proof fn lemma_many_append<T: Record>(ms: Seq<T::V>, s: Seq<u8>)
    requires
        wf_many::<T>(ms),
    ensures
        parse_many::<T>(many_bytes::<T>(ms) + s) == prepend(ms, parse_many::<T>(s)),
    decreases ms.len(),
{
    if ms.len() == 0 {
        assert(many_bytes::<T>(ms) + s =~= s);
        match parse_many::<T>(s) {
            Ok(r) => {
                assert(ms + r =~= r);
            },
            Err(_) => {},
        }
    } else {
        lemma_many_bytes_head::<T>(ms);
        let tail = ms.drop_first();
        let tb = many_bytes::<T>(tail);
        assert(T::spec_wf(ms[0]));
        T::lemma_round_trip(ms[0], tb + s);
        let b = T::spec_bytes(ms[0]);
        let all = many_bytes::<T>(ms) + s;
        assert(all =~= b + (tb + s));
        assert(all.subrange(b.len() as int, all.len() as int) =~= tb + s);
        assert(wf_many::<T>(tail)) by {
            assert forall|i: int| 0 <= i < tail.len() implies #[trigger] T::spec_wf(tail[i]) by {
                assert(tail[i] == ms[i + 1]);
            }
        }
        lemma_many_append::<T>(tail, s);
        match parse_many::<T>(s) {
            Ok(r) => {
                assert(seq![ms[0]] + (tail + r) =~= ms + r);
            },
            Err(_) => {},
        }
    }
}

/// Reads records back to back until `input` is used up.
pub fn many0<T: Record>(input: &[u8]) -> (r: Result<Vec<T>, ParseError>)
    ensures
        match r {
            Ok(v) => parse_many::<T>(input@) == Ok::<Seq<T::V>, ParseError>(views(v@)),
            Err(e) => parse_many::<T>(input@) == Err::<Seq<T::V>, ParseError>(e),
        },
{
    let mut out: Vec<T> = Vec::new();
    let mut pos: usize = 0;
    assert(input@.subrange(0, input@.len() as int) =~= input@);
    assert(views(out@) =~= Seq::<T::V>::empty());
    while pos < input.len()
        invariant
            pos <= input@.len(),
            parse_many::<T>(input@) == prepend(
                views(out@),
                parse_many::<T>(input@.subrange(pos as int, input@.len() as int)),
            ),
        decreases input@.len() - pos,
    {
        let rest = vstd::slice::slice_subrange(input, pos, input.len());
        match T::parse(rest) {
            Err(e) => {
                return Err(e);
            },
            Ok((x, n)) => {
                let ghost old_out = views(out@);
                proof {
                    assert(rest@.subrange(n as int, rest@.len() as int) =~= input@.subrange(
                        pos + n,
                        input@.len() as int,
                    ));
                }
                out.push(x);
                pos = pos + n;
                proof {
                    assert(views(out@) =~= old_out + seq![x@]);
                    match parse_many::<T>(input@.subrange(pos as int, input@.len() as int)) {
                        Ok(ms) => {
                            assert(old_out + (seq![x@] + ms) =~= views(out@) + ms);
                        },
                        Err(_) => {},
                    }
                }
            },
        }
    }
    assert(input@.subrange(pos as int, input@.len() as int) =~= Seq::<u8>::empty());
    assert(views(out@) + Seq::<T::V>::empty() =~= views(out@));
    Ok(out)
}

/// Writes every record of `items` in order.
pub fn emit_many<T: Record>(items: &Vec<T>, buf: &mut BytesMut)
    requires
        fits_many::<T>(views(items@)),
        buf_bytes(*old(buf)).len() + many_bytes::<T>(views(items@)).len() <= isize::MAX,
    ensures
        buf_bytes(*final(buf)) == buf_bytes(*old(buf)) + many_bytes::<T>(views(items@)),
{
    let mut i: usize = 0;
    assert(views(items@).subrange(0, 0) =~= Seq::<T::V>::empty());
    assert(buf_bytes(*buf) =~= buf_bytes(*old(buf)) + Seq::<u8>::empty());
    while i < items.len()
        invariant
            i <= items@.len(),
            fits_many::<T>(views(items@)),
            buf_bytes(*old(buf)).len() + many_bytes::<T>(views(items@)).len() <= isize::MAX,
            buf_bytes(*buf) == buf_bytes(*old(buf)) + many_bytes::<T>(
                views(items@).subrange(0, i as int),
            ),
        decreases items@.len() - i,
    {
        assert(T::spec_fits(views(items@)[i as int]));
        proof {
            lemma_many_bytes_push::<T>(views(items@).subrange(0, i as int), items@[i as int]@);
            assert(views(items@).subrange(0, i as int).push(items@[i as int]@) =~= views(
                items@,
            ).subrange(0, i + 1));
            lemma_many_bytes_prefix::<T>(views(items@), i + 1);
        }
        items[i].emit(buf);
        proof {
            lemma_many_bytes_push::<T>(views(items@).subrange(0, i as int), items@[i as int]@);
            assert(views(items@).subrange(0, i as int).push(items@[i as int]@) =~= views(
                items@,
            ).subrange(0, i + 1));
        }
        i = i + 1;
        assert(buf_bytes(*buf) =~= buf_bytes(*old(buf)) + many_bytes::<T>(
            views(items@).subrange(0, i as int),
        ));
    }
    assert(views(items@).subrange(0, i as int) =~= views(items@));
}

/// The number of bytes that `emit_many` writes for `items`.
pub fn many_len<T: Record>(items: &Vec<T>) -> (r: usize)
    requires
        fits_many::<T>(views(items@)),
        many_bytes::<T>(views(items@)).len() <= usize::MAX,
    ensures
        r as nat == many_bytes::<T>(views(items@)).len(),
{
    let mut i: usize = 0;
    let mut total: usize = 0;
    assert(views(items@).subrange(0, 0) =~= Seq::<T::V>::empty());
    while i < items.len()
        invariant
            i <= items@.len(),
            fits_many::<T>(views(items@)),
            many_bytes::<T>(views(items@)).len() <= usize::MAX,
            total as nat == many_bytes::<T>(views(items@).subrange(0, i as int)).len(),
        decreases items@.len() - i,
    {
        assert(T::spec_fits(views(items@)[i as int]));
        let l = items[i].wire_len();
        proof {
            lemma_many_bytes_push::<T>(views(items@).subrange(0, i as int), items@[i as int]@);
            assert(views(items@).subrange(0, i as int).push(items@[i as int]@) =~= views(
                items@,
            ).subrange(0, i + 1));
            lemma_many_bytes_prefix::<T>(views(items@), i + 1);
        }
        total = total + l;
        i = i + 1;
    }
    assert(views(items@).subrange(0, i as int) =~= views(items@));
    total
}

} // verus!
