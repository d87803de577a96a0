use vstd::prelude::*;

verus! {

/// The four bytes of a word, the lowest first.
pub open spec fn word_little_endian(word: u32) -> Seq<u8> {
    seq![
        (word % 0x100) as u8,
        ((word / 0x100) % 0x100) as u8,
        ((word / 0x1_0000) % 0x100) as u8,
        ((word / 0x100_0000) % 0x100) as u8,
    ]
}

/// The eight bytes of a long word, the lowest first.
pub open spec fn long_little_endian(long: u64) -> Seq<u8> {
    seq![
        (long % 0x100) as u8,
        ((long / 0x100) % 0x100) as u8,
        ((long / 0x1_0000) % 0x100) as u8,
        ((long / 0x100_0000) % 0x100) as u8,
        ((long / 0x1_0000_0000) % 0x100) as u8,
        ((long / 0x100_0000_0000) % 0x100) as u8,
        ((long / 0x1_0000_0000_0000) % 0x100) as u8,
        ((long / 0x100_0000_0000_0000) % 0x100) as u8,
    ]
}

/// Whether `bytes` are the bytes of a number in one of the two orders in
/// which machines hold numbers: lowest byte first or highest byte first.
pub open spec fn in_machine_order(bytes: Seq<u8>, little_endian: Seq<u8>) -> bool {
    bytes == little_endian || bytes == little_endian.reverse()
}

/// `bytemuck::bytes_of` on a word of thirty-two bits: the four bytes of the
/// word as the machine holds it in memory, which is with the lowest byte
/// first or with the highest byte first.
#[verifier::external_body]
pub(crate) fn word_bytes(word: u32) -> (bytes: Vec<u8>)
    ensures
        bytes@.len() == 4,
        in_machine_order(bytes@, word_little_endian(word)),
{
    bytemuck::bytes_of(&word).to_vec()
}

/// `bytemuck::bytes_of` on a word of sixty-four bits: the eight bytes of
/// the word as the machine holds it in memory, which is with the lowest
/// byte first or with the highest byte first.
#[verifier::external_body]
pub(crate) fn long_bytes(long: u64) -> (bytes: Vec<u8>)
    ensures
        bytes@.len() == 8,
        in_machine_order(bytes@, long_little_endian(long)),
{
    bytemuck::bytes_of(&long).to_vec()
}

/// Whether `bytes` hold `words` one after the other, each in machine
/// order.
pub open spec fn holds_words(bytes: Seq<u8>, words: Seq<u32>) -> bool {
    &&& bytes.len() == 4 * words.len()
    &&& forall|k: int|
        0 <= k < words.len() ==> in_machine_order(
            #[trigger] bytes.subrange(4 * k, 4 * k + 4),
            word_little_endian(words[k]),
        )
}

/// Appends to `bytes` the bytes of each of `words`, in order.
pub fn append_words(bytes: &mut Vec<u8>, words: &[u32])
    requires
        old(bytes)@.len() + 4 * words@.len() <= usize::MAX,
    ensures
        final(bytes)@.len() == old(bytes)@.len() + 4 * words@.len(),
        final(bytes)@.subrange(0, old(bytes)@.len() as int) == old(bytes)@,
        holds_words(
            final(bytes)@.subrange(old(bytes)@.len() as int, final(bytes)@.len() as int),
            words@,
        ),
{
    let ghost start = bytes@.len() as int;
    let mut k: usize = 0;
    while k < words.len()
        invariant
            k <= words.len(),
            start == old(bytes)@.len(),
            start + 4 * words@.len() <= usize::MAX,
            bytes@.len() == start + 4 * k,
            bytes@.subrange(0, start) == old(bytes)@,
            holds_words(bytes@.subrange(start, bytes@.len() as int), words@.take(k as int)),
        decreases words.len() - k,
    {
        let ghost before = bytes@;
        let mut word = word_bytes(words[k]);
        let ghost appended = word@;
        bytes.append(&mut word);
        k += 1;
        proof {
            let tail = bytes@.subrange(start, bytes@.len() as int);
            let tail_before = before.subrange(start, before.len() as int);
            assert(bytes@.subrange(0, start) =~= before.subrange(0, start));
            assert forall|j: int| 0 <= j < k implies in_machine_order(
                #[trigger] tail.subrange(4 * j, 4 * j + 4),
                word_little_endian(words@.take(k as int)[j]),
            ) by {
                if j < k - 1 {
                    assert(tail.subrange(4 * j, 4 * j + 4) =~= tail_before.subrange(
                        4 * j,
                        4 * j + 4,
                    ));
                    assert(words@.take(k as int)[j] == words@.take(k - 1)[j]);
                } else {
                    assert(tail.subrange(4 * j, 4 * j + 4) =~= appended);
                }
            }
        }
    }
    assert(words@.take(k as int) == words@);
}

} // verus!
