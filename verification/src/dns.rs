//! Decoding of DNS TXT lookup results, and the shaping of lookup errors.
//!
//! A TXT lookup yields records, each a run of byte chunks.  The decoder
//! flattens the records in order and keeps, as strings, exactly the
//! chunks that are valid UTF-8; a chunk that is not valid UTF-8 is
//! dropped silently rather than failing the whole lookup.  The query
//! itself is network work and is issued by the surrounding application,
//! which hands the raw chunks in and reports failures through
//! `DnsLookupError`.

use vstd::prelude::*;
use vstd::utf8::decode_utf8;
use vstd::utf8::valid_utf8;

verus! {

/// Relies on core::str::from_utf8: it succeeds exactly on valid UTF-8
/// and yields the characters those bytes encode.
#[verifier::external_body]
fn utf8_str(bytes: &[u8]) -> (r: Option<&str>)
    ensures
        r is Some <==> valid_utf8(bytes@),
        (r matches Some(s) ==> s@ == decode_utf8(bytes@)),
{
    core::str::from_utf8(bytes).ok()
}

/// The strings decoded from a run of byte chunks, in order: each chunk
/// that is valid UTF-8 contributes its characters, every other chunk is
/// dropped.
pub open spec fn decoded_chunks(chunks: Seq<Seq<u8>>) -> Seq<Seq<char>>
    decreases chunks.len(),
{
    if chunks.len() == 0 {
        Seq::empty()
    } else if valid_utf8(chunks.first()) {
        seq![decode_utf8(chunks.first())] + decoded_chunks(chunks.drop_first())
    } else {
        decoded_chunks(chunks.drop_first())
    }
}

/// Decoding distributes over concatenation of chunk runs.
pub proof fn lemma_decoded_chunks_concat(a: Seq<Seq<u8>>, b: Seq<Seq<u8>>)
    ensures
        decoded_chunks(a + b) == decoded_chunks(a) + decoded_chunks(b),
    decreases a.len(),
{
    if a.len() == 0 {
        assert(a + b =~= b);
        assert(decoded_chunks(a) + decoded_chunks(b) =~= decoded_chunks(b));
    } else {
        assert((a + b).first() == a.first());
        assert((a + b).drop_first() =~= a.drop_first() + b);
        lemma_decoded_chunks_concat(a.drop_first(), b);
        if valid_utf8(a.first()) {
            assert(seq![decode_utf8(a.first())] + (decoded_chunks(a.drop_first())
                + decoded_chunks(b)) =~= (seq![decode_utf8(a.first())] + decoded_chunks(
                a.drop_first(),
            )) + decoded_chunks(b));
        }
    }
}

/// Appending one chunk appends its decoding, or nothing when the chunk
/// is not valid UTF-8.
pub proof fn lemma_decoded_chunks_push(chunks: Seq<Seq<u8>>, c: Seq<u8>)
    ensures
        valid_utf8(c) ==> decoded_chunks(chunks.push(c)) == decoded_chunks(chunks).push(
            decode_utf8(c),
        ),
        !valid_utf8(c) ==> decoded_chunks(chunks.push(c)) == decoded_chunks(chunks),
{
    assert(chunks.push(c) =~= chunks + seq![c]);
    lemma_decoded_chunks_concat(chunks, seq![c]);
    assert(decoded_chunks(Seq::<Seq<u8>>::empty()) == Seq::<Seq<char>>::empty());
    assert(seq![c].first() == c);
    assert(seq![c].drop_first() =~= Seq::<Seq<u8>>::empty());
    if valid_utf8(c) {
        assert(decoded_chunks(seq![c]) =~= seq![decode_utf8(c)]);
        assert(decoded_chunks(chunks) + seq![decode_utf8(c)] =~= decoded_chunks(chunks).push(
            decode_utf8(c),
        ));
    } else {
        assert(decoded_chunks(chunks) + decoded_chunks(seq![c]) =~= decoded_chunks(chunks));
    }
}

/// A chunk that is not valid UTF-8 is omitted, not an error: removing it
/// from the input leaves the decoded result unchanged.
pub proof fn lemma_invalid_chunk_omitted(chunks: Seq<Seq<u8>>, i: int)
    requires
        0 <= i < chunks.len(),
        !valid_utf8(chunks[i]),
    ensures
        decoded_chunks(chunks.remove(i)) == decoded_chunks(chunks),
{
    let front = chunks.subrange(0, i);
    let middle = chunks.subrange(i, i + 1);
    let back = chunks.subrange(i + 1, chunks.len() as int);
    assert(chunks =~= (front + middle) + back);
    assert(chunks.remove(i) =~= front + back);
    lemma_decoded_chunks_concat(front + middle, back);
    lemma_decoded_chunks_concat(front, middle);
    lemma_decoded_chunks_concat(front, back);
    assert(decoded_chunks(Seq::<Seq<u8>>::empty()) == Seq::<Seq<char>>::empty());
    assert(middle.first() == chunks[i]);
    assert(middle.drop_first() =~= Seq::<Seq<u8>>::empty());
    assert(decoded_chunks(middle) =~= Seq::<Seq<char>>::empty());
    assert(decoded_chunks(front) + decoded_chunks(middle) =~= decoded_chunks(front));
}

/// Decodes one record's run of byte chunks: the chunks that are valid
/// UTF-8, as strings, in order; the others are dropped.
pub fn decode_txt_chunks(chunks: &Vec<Vec<u8>>) -> (r: Vec<String>)
    ensures
        r.deep_view() == decoded_chunks(chunks.deep_view()),
{
    let mut r: Vec<String> = Vec::new();
    let mut i: usize = 0;
    while i < chunks.len()
        invariant
            i <= chunks.len(),
            r.deep_view() == decoded_chunks(chunks.deep_view().take(i as int)),
        decreases chunks.len() - i,
    {
        proof {
            assert(chunks.deep_view().take(i as int + 1) =~= chunks.deep_view().take(
                i as int,
            ).push(chunks.deep_view()[i as int]));
            lemma_decoded_chunks_push(
                chunks.deep_view().take(i as int),
                chunks.deep_view()[i as int],
            );
            assert(chunks.deep_view()[i as int] =~= chunks@[i as int]@);
        }
        let ghost r_before = r.deep_view();
        match utf8_str(chunks[i].as_slice()) {
            Some(s) => {
                r.push(String::from_str(s));
                proof {
                    assert(r.deep_view() =~= r_before.push(decode_utf8(
                        chunks.deep_view()[i as int],
                    )));
                }
            },
            None => {},
        }
        i = i + 1;
    }
    proof {
        assert(chunks.deep_view().take(chunks.len() as int) =~= chunks.deep_view());
    }
    r
}

/// Decodes a whole TXT lookup: the records' chunk runs are flattened in
/// record order, then decoded as `decode_txt_chunks` does.
pub fn decode_txt_records(records: &Vec<Vec<Vec<u8>>>) -> (r: Vec<String>)
    ensures
        r.deep_view() == decoded_chunks(records.deep_view().flatten()),
{
    let mut r: Vec<String> = Vec::new();
    let mut i: usize = 0;
    while i < records.len()
        invariant
            i <= records.len(),
            r.deep_view() == decoded_chunks(records.deep_view().take(i as int).flatten()),
        decreases records.len() - i,
    {
        let ghost r_before = r.deep_view();
        let mut part = decode_txt_chunks(&records[i]);
        let ghost part_view = part.deep_view();
        r.append(&mut part);
        proof {
            let dv = records.deep_view();
            assert(dv.take(i as int + 1) =~= dv.take(i as int).push(dv[i as int]));
            dv.take(i as int).lemma_flatten_push(dv[i as int]);
            lemma_decoded_chunks_concat(dv.take(i as int).flatten(), dv[i as int]);
            assert(records[i as int].deep_view() =~= dv[i as int]);
            assert(r.deep_view() =~= r_before + part_view);
        }
        i = i + 1;
    }
    proof {
        assert(records.deep_view().take(records.len() as int) =~= records.deep_view());
    }
    r
}

/// A failed TXT lookup, carrying the upstream resolver's description.
/// Always recoverable: it is reported to the caller, never a crash.
#[derive(Clone, Debug)]
pub struct DnsLookupError {
    pub detail: String,
}

impl DnsLookupError {
    /// Wraps the upstream description.
    pub fn new(detail: String) -> (r: Self)
        ensures
            r.detail == detail,
    {
        DnsLookupError { detail }
    }

    /// The error as shown to the calling UI layer: the fixed prefix,
    /// then the upstream description.
    pub fn message(&self) -> (r: String)
        ensures
            r@ == "DNS lookup error: "@ + self.detail@,
    {
        let mut r = String::from_str("DNS lookup error: ");
        r.append(self.detail.as_str());
        r
    }
}

} // verus!
