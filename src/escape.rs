//! Escaping of text for XML content and double-quoted attribute values.
use vstd::prelude::*;
use vstd::seq_lib::lemma_flatten_concat;
use vstd::string::StringSliceAdditionalSpecFns;

use crate::text::write_bytes;

verus! {

/// The four bytes that cannot stand as they are in XML text or in a quoted attribute value.
pub open spec fn is_reserved(b: u8) -> bool {
    b == 38u8 || b == 60u8 || b == 62u8 || b == 34u8
}

/// The named entity that stands for a reserved byte.
pub open spec fn entity(b: u8) -> Seq<u8> {
    if b == 34u8 {
        "&quot;".spec_bytes()
    } else if b == 38u8 {
        "&amp;".spec_bytes()
    } else if b == 60u8 {
        "&lt;".spec_bytes()
    } else {
        "&gt;".spec_bytes()
    }
}

/// What one byte becomes: its entity if it is reserved, else itself.
pub open spec fn escape_byte(b: u8) -> Seq<u8> {
    if is_reserved(b) {
        entity(b)
    } else {
        seq![b]
    }
}

/// The escaped form of a byte sequence: each byte replaced by its escaped form, in order.
pub open spec fn escape_bytes(s: Seq<u8>) -> Seq<u8> {
    s.map_values(|b: u8| escape_byte(b)).flatten()
}

/// Escaping distributes over concatenation.
pub proof fn lemma_escape_concat(a: Seq<u8>, b: Seq<u8>)
    ensures
        escape_bytes(a + b) == escape_bytes(a) + escape_bytes(b),
{
    let f = |x: u8| escape_byte(x);
    assert((a + b).map_values(f) =~= a.map_values(f) + b.map_values(f));
    lemma_flatten_concat(a.map_values(f), b.map_values(f));
}

/// The escaped form of a single byte.
pub proof fn lemma_escape_one(b: u8)
    ensures
        escape_bytes(seq![b]) == escape_byte(b),
{
    let m = seq![b].map_values(|x: u8| escape_byte(x));
    assert(m =~= seq![escape_byte(b)]);
    m.lemma_flatten_singleton();
}

/// A byte sequence that holds no reserved byte is its own escaped form.
pub proof fn lemma_escape_unreserved(s: Seq<u8>)
    requires
        forall|i: int| 0 <= i < s.len() ==> !is_reserved(#[trigger] s[i]),
    ensures
        escape_bytes(s) == s,
    decreases s.len(),
{
    if s.len() == 0 {
        assert(s.map_values(|b: u8| escape_byte(b)) =~= Seq::<Seq<u8>>::empty());
    } else {
        let init = s.drop_last();
        assert(forall|i: int| 0 <= i < init.len() ==> init[i] == s[i]);
        lemma_escape_unreserved(init);
        lemma_escape_concat(init, seq![s.last()]);
        lemma_escape_one(s.last());
        assert(init + seq![s.last()] =~= s);
    }
}

/// A byte sequence made only of reserved bytes escapes to the entities of its bytes, in the
/// same order.
pub proof fn lemma_escape_all_reserved(s: Seq<u8>)
    requires
        forall|i: int| 0 <= i < s.len() ==> is_reserved(#[trigger] s[i]),
    ensures
        escape_bytes(s) == s.map_values(|b: u8| entity(b)).flatten(),
{
    assert(s.map_values(|b: u8| escape_byte(b)) =~= s.map_values(|b: u8| entity(b)));
}

/// Appends the escaped form of `buf`. Runs of unreserved bytes are copied in one piece.
pub fn write_escaped(out: &mut Vec<u8>, buf: &[u8])
    ensures
        final(out)@ == old(out)@ + escape_bytes(buf@),
{
    let ghost start = out@;
    let mut offset: usize = 0;
    let mut i: usize = 0;
    while i < buf.len()
        invariant
            0 <= offset <= i <= buf@.len(),
            out@ == start + escape_bytes(buf@.subrange(0, offset as int)),
            forall|j: int| offset <= j < i ==> !is_reserved(#[trigger] buf@[j]),
        decreases buf@.len() - i,
    {
        let byte = buf[i];
        if byte == 34u8 || byte == 38u8 || byte == 60u8 || byte == 62u8 {
            let ghost run = buf@.subrange(offset as int, i as int);
            write_run(out, buf, offset, i);
            let esc: &str = if byte == 34u8 {
                "&quot;"
            } else if byte == 38u8 {
                "&amp;"
            } else if byte == 60u8 {
                "&lt;"
            } else {
                "&gt;"
            };
            write_bytes(out, esc.as_bytes());
            proof {
                assert forall|j: int| 0 <= j < run.len() implies !is_reserved(#[trigger] run[j]) by {
                    assert(run[j] == buf@[offset + j]);
                }
                lemma_escape_unreserved(run);
                lemma_escape_one(byte);
                lemma_escape_concat(buf@.subrange(0, offset as int), run);
                lemma_escape_concat(buf@.subrange(0, offset as int) + run, seq![byte]);
                assert(buf@.subrange(0, offset as int) + run + seq![byte] =~= buf@.subrange(
                    0,
                    i + 1,
                ));
                assert(out@ =~= start + escape_bytes(buf@.subrange(0, i + 1)));
            }
            offset = i + 1;
        }
        i = i + 1;
    }
    let ghost run = buf@.subrange(offset as int, buf@.len() as int);
    write_run(out, buf, offset, buf.len());
    proof {
        assert forall|j: int| 0 <= j < run.len() implies !is_reserved(#[trigger] run[j]) by {
            assert(run[j] == buf@[offset + j]);
        }
        lemma_escape_unreserved(run);
        lemma_escape_concat(buf@.subrange(0, offset as int), run);
        assert(buf@.subrange(0, offset as int) + run =~= buf@);
        assert(out@ =~= start + escape_bytes(buf@));
    }
}

/// Appends `buf[from..to]` as it is.
fn write_run(out: &mut Vec<u8>, buf: &[u8], from: usize, to: usize)
    requires
        from <= to <= buf@.len(),
    ensures
        final(out)@ == old(out)@ + buf@.subrange(from as int, to as int),
{
    let ghost start = out@;
    let mut i: usize = from;
    while i < to
        invariant
            from <= i <= to <= buf@.len(),
            out@ == start + buf@.subrange(from as int, i as int),
        decreases to - i,
    {
        out.push(buf[i]);
        i = i + 1;
        assert(out@ =~= start + buf@.subrange(from as int, i as int));
    }
}

} // verus!
