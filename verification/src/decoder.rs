//! A cursor over the bytes of one message.
//!
//! The cursor hands out fixed-size values, names that end in a zero byte, and
//! runs of raw bytes. Each piece borrows from the message or is copied out of
//! it; nothing is allocated.

use crate::wire::Wire;
use vstd::prelude::*;
use vstd::slice::slice_subrange;

verus! {

/// Why a message could not be taken apart.
#[derive(Clone, Copy, Debug, PartialEq, Eq, Structural)]
pub enum DecodeError {
    /// Fewer bytes are left than the next fixed-size value needs.
    ShortBuffer,
    /// A name runs to the end of the message without a zero byte.
    MissingTerminator,
    /// A length that the message declares reaches beyond its end.
    LengthOverrun,
}

/// The single zero byte that ends a name.
pub open spec fn zero() -> Seq<u8> {
    seq![0u8]
}

/// Whether `s` can stand as a name: it holds no zero byte.
pub open spec fn is_name(s: Seq<u8>) -> bool {
    forall|i: int| 0 <= i < s.len() ==> s[i] != 0
}

/// The number of bytes of `s` before its first zero byte; the length of `s`
/// where it holds none.
pub open spec fn name_len(s: Seq<u8>) -> nat
    decreases s.len(),
{
    if s.len() == 0 || s[0] == 0 {
        0
    } else {
        1 + name_len(s.skip(1))
    }
}

/// A fixed-size value at the head of `s`, and what follows it.
pub open spec fn take<T: Wire>(s: Seq<u8>) -> Result<(T, Seq<u8>), DecodeError> {
    if s.len() >= T::wire_len() {
        Ok((T::decoded(s.take(T::wire_len() as int)), s.skip(T::wire_len() as int)))
    } else {
        Err(DecodeError::ShortBuffer)
    }
}

/// The name at the head of `s`, without the zero byte that ends it, and what
/// follows that byte.
pub open spec fn take_name(s: Seq<u8>) -> Result<(Seq<u8>, Seq<u8>), DecodeError> {
    if name_len(s) < s.len() {
        Ok((s.take(name_len(s) as int), s.skip(name_len(s) as int + 1)))
    } else {
        Err(DecodeError::MissingTerminator)
    }
}

/// The first `n` bytes of `s`, and what follows them.
pub open spec fn take_bytes(s: Seq<u8>, n: nat) -> Result<(Seq<u8>, Seq<u8>), DecodeError> {
    if n <= s.len() {
        Ok((s.take(n as int), s.skip(n as int)))
    } else {
        Err(DecodeError::LengthOverrun)
    }
}

/// `name_len` is the place of the first zero byte.
pub proof fn lemma_name_len(s: Seq<u8>)
    ensures
        name_len(s) <= s.len(),
        forall|j: int| 0 <= j < name_len(s) ==> s[j] != 0,
        name_len(s) < s.len() ==> s[name_len(s) as int] == 0,
    decreases s.len(),
{
    if s.len() == 0 || s[0] == 0 {
    } else {
        let t = s.skip(1);
        lemma_name_len(t);
        assert forall|j: int| 0 <= j < name_len(s) implies s[j] != 0 by {
            if j > 0 {
                assert(t[j - 1] == s[j]);
            }
        }
        if name_len(s) < s.len() {
            assert(t[name_len(t) as int] == s[name_len(s) as int]);
        }
    }
}

/// A place before which no byte is zero, and which is the end of `s` or holds
/// a zero byte, is `name_len`.
pub proof fn lemma_name_len_at(s: Seq<u8>, k: int)
    requires
        0 <= k <= s.len(),
        forall|j: int| 0 <= j < k ==> s[j] != 0,
        k < s.len() ==> s[k] == 0,
    ensures
        name_len(s) == k,
    decreases k,
{
    if k > 0 {
        let t = s.skip(1);
        assert forall|j: int| 0 <= j < k - 1 implies t[j] != 0 by {
            assert(t[j] == s[j + 1]);
        }
        lemma_name_len_at(t, k - 1);
    }
}

/// A name, followed by the zero byte that ends it, is read back whole.
pub proof fn lemma_take_name(name: Seq<u8>, rest: Seq<u8>)
    requires
        is_name(name),
    ensures
        take_name(name + zero() + rest) == Ok::<_, DecodeError>((name, rest)),
{
    let s = name + zero() + rest;
    lemma_name_len_at(s, name.len() as int);
    assert(s.take(name.len() as int) =~= name);
    assert(s.skip(name.len() as int + 1) =~= rest);
}

/// A value, followed by anything, is read back.
pub proof fn lemma_take<T: Wire>(v: T, rest: Seq<u8>)
    ensures
        take::<T>(v.encoded() + rest) == Ok::<_, DecodeError>((v, rest)),
{
    v.lemma_encoded();
    let s = v.encoded() + rest;
    assert(s.take(T::wire_len() as int) =~= v.encoded());
    assert(s.skip(T::wire_len() as int) =~= rest);
}

/// Bytes, followed by anything, are read back.
pub proof fn lemma_take_bytes(data: Seq<u8>, rest: Seq<u8>)
    ensures
        take_bytes(data + rest, data.len()) == Ok::<_, DecodeError>((data, rest)),
{
    let s = data + rest;
    assert(s.take(data.len() as int) =~= data);
    assert(s.skip(data.len() as int) =~= rest);
}

/// A cursor over a message. Its view is what is left to read.
pub struct Decoder<'a> {
    buf: &'a [u8],
    pos: usize,
}

impl<'a> View for Decoder<'a> {
    type V = Seq<u8>;

    closed spec fn view(&self) -> Seq<u8> {
        self.buf@.skip(self.pos as int)
    }
}

impl<'a> Decoder<'a> {
    #[verifier::type_invariant]
    spec fn inv(self) -> bool {
        self.pos <= self.buf@.len()
    }

    /// A cursor at the start of `buf`.
    pub fn new(buf: &'a [u8]) -> (d: Self)
        ensures
            d@ == buf@,
    {
        assert(buf@.skip(0) =~= buf@);
        Decoder { buf, pos: 0 }
    }

    /// The number of bytes left.
    pub fn remaining(&self) -> (n: usize)
        ensures
            n == self@.len(),
    {
        proof {
            use_type_invariant(self);
        }
        self.buf.len() - self.pos
    }

    /// Reads a fixed-size value and moves past it. With too few bytes left,
    /// fails and stays in place.
    pub fn fetch<T: Wire>(&mut self) -> (r: Result<T, DecodeError>)
        ensures
            match r {
                Ok(v) => take::<T>(old(self)@) == Ok::<_, DecodeError>((v, final(self)@)),
                Err(e) => take::<T>(old(self)@) == Err::<(T, Seq<u8>), _>(e) && final(self)@ == old(
                    self,
                )@,
            },
    {
        proof {
            use_type_invariant(&*self);
        }
        let n: usize = T::size();
        if self.buf.len() - self.pos < n {
            return Err(DecodeError::ShortBuffer);
        }
        let end: usize = self.pos + n;
        let piece = slice_subrange(self.buf, self.pos, end);
        let v = T::decode(piece);
        proof {
            assert(old(self)@.take(n as int) =~= piece@);
            assert(old(self)@.skip(n as int) =~= self.buf@.skip(end as int));
        }
        self.pos = end;
        Ok(v)
    }

    /// Reads a name up to its zero byte and moves past that byte. Without a
    /// zero byte in what is left, fails and stays in place.
    pub fn fetch_str(&mut self) -> (r: Result<&'a [u8], DecodeError>)
        ensures
            match r {
                Ok(name) => take_name(old(self)@) == Ok::<_, DecodeError>((name@, final(self)@)),
                Err(e) => take_name(old(self)@) == Err::<(Seq<u8>, Seq<u8>), _>(e) && final(self)@
                    == old(self)@,
            },
    {
        proof {
            use_type_invariant(&*self);
        }
        let start: usize = self.pos;
        let mut end: usize = start;
        while end < self.buf.len() && self.buf[end] != 0
            invariant
                start <= end <= self.buf.len(),
                forall|j: int| start <= j < end ==> self.buf@[j] != 0,
            decreases self.buf.len() - end,
        {
            end += 1;
        }
        proof {
            let s = old(self)@;
            assert forall|j: int| 0 <= j < end - start implies s[j] != 0 by {
                assert(s[j] == self.buf@[start + j]);
            }
            lemma_name_len_at(s, end - start);
        }
        if end == self.buf.len() {
            return Err(DecodeError::MissingTerminator);
        }
        let name = slice_subrange(self.buf, start, end);
        proof {
            assert(old(self)@.take(end - start) =~= name@);
            assert(old(self)@.skip(end - start + 1) =~= self.buf@.skip(end + 1));
        }
        self.pos = end + 1;
        Ok(name)
    }

    /// Reads `n` raw bytes and moves past them. With fewer than `n` bytes
    /// left, fails and stays in place.
    pub fn fetch_bytes(&mut self, n: usize) -> (r: Result<&'a [u8], DecodeError>)
        ensures
            match r {
                Ok(data) => take_bytes(old(self)@, n as nat) == Ok::<_, DecodeError>(
                    (data@, final(self)@),
                ),
                Err(e) => take_bytes(old(self)@, n as nat) == Err::<(Seq<u8>, Seq<u8>), _>(e)
                    && final(self)@ == old(self)@,
            },
    {
        proof {
            use_type_invariant(&*self);
        }
        if self.buf.len() - self.pos < n {
            return Err(DecodeError::LengthOverrun);
        }
        let end: usize = self.pos + n;
        let data = slice_subrange(self.buf, self.pos, end);
        proof {
            assert(old(self)@.take(n as int) =~= data@);
            assert(old(self)@.skip(n as int) =~= self.buf@.skip(end as int));
        }
        self.pos = end;
        Ok(data)
    }

    /// Reads all that is left.
    pub fn fetch_rest(&mut self) -> (data: &'a [u8])
        ensures
            data@ == old(self)@,
            final(self)@ == Seq::<u8>::empty(),
    {
        proof {
            use_type_invariant(&*self);
        }
        let data = slice_subrange(self.buf, self.pos, self.buf.len());
        proof {
            assert(old(self)@ =~= data@);
            assert(self.buf@.skip(self.buf@.len() as int) =~= Seq::<u8>::empty());
        }
        self.pos = self.buf.len();
        data
    }
}

} // verus!
