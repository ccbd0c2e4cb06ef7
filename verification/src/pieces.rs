//! Cutting a buffer into pieces of one size.

use vstd::prelude::*;
use vstd::seq_lib::lemma_flatten_concat;

verus! {

/// How many bytes a piece may hold: `buffer_size`, or the whole input where that is zero.
pub open spec fn piece_size(len: nat, buffer_size: nat) -> nat {
    if buffer_size == 0 {
        len
    } else {
        buffer_size
    }
}

/// `input` cut into pieces of `size` bytes, the last one holding what is left. No piece is
/// empty: an empty input has no pieces.
pub open spec fn pieces_of(input: Seq<u8>, size: nat) -> Seq<Seq<u8>>
    decreases input.len(),
{
    if input.len() == 0 || size == 0 {
        Seq::empty()
    } else if input.len() <= size {
        seq![input]
    } else {
        seq![input.take(size as int)] + pieces_of(input.skip(size as int), size)
    }
}

/// All of `blocks` hold exactly `size` bytes.
pub open spec fn all_full(blocks: Seq<Seq<u8>>, size: nat) -> bool {
    forall|i: int| 0 <= i < blocks.len() ==> (#[trigger] blocks[i]).len() == size
}

/// The pieces of an input, put together again, are the input.
pub proof fn lemma_pieces_concat(input: Seq<u8>, size: nat)
    requires
        size > 0 || input.len() == 0,
    ensures
        pieces_of(input, size).flatten() == input,
    decreases input.len(),
{
    if input.len() == 0 {
        assert(input =~= Seq::<u8>::empty());
    } else if input.len() <= size {
        seq![input].lemma_flatten_singleton();
    } else {
        let head = seq![input.take(size as int)];
        let tail = pieces_of(input.skip(size as int), size);
        lemma_pieces_concat(input.skip(size as int), size);
        lemma_flatten_concat(head, tail);
        head.lemma_flatten_singleton();
        assert(input.take(size as int) + input.skip(size as int) =~= input);
    }
}

/// Every piece holds between one and `size` bytes, and each but the last holds `size`.
pub proof fn lemma_pieces_sizes(input: Seq<u8>, size: nat, i: int)
    requires
        0 <= i < pieces_of(input, size).len(),
    ensures
        0 < pieces_of(input, size)[i].len() <= size,
        i < pieces_of(input, size).len() - 1 ==> pieces_of(input, size)[i].len() == size,
    decreases input.len(),
{
    if input.len() > size && size > 0 {
        if i > 0 {
            lemma_pieces_sizes(input.skip(size as int), size, i - 1);
        }
    }
}

/// Full blocks and then a shorter rest are the pieces of all their bytes: the blocks, and the
/// rest where it holds bytes.
pub proof fn lemma_blocks_and_rest(blocks: Seq<Seq<u8>>, rest: Seq<u8>, size: nat)
    requires
        size > 0,
        all_full(blocks, size),
        rest.len() < size,
    ensures
        pieces_of(blocks.flatten() + rest, size) == if rest.len() == 0 {
            blocks
        } else {
            blocks.push(rest)
        },
    decreases blocks.len(),
{
    let all = blocks.flatten() + rest;
    if blocks.len() == 0 {
        assert(blocks.flatten() =~= Seq::<u8>::empty());
        assert(all =~= rest);
        if rest.len() > 0 {
            assert(blocks.push(rest) =~= seq![rest]);
        } else {
            assert(blocks =~= Seq::<Seq<u8>>::empty());
        }
    } else {
        let first = blocks.first();
        let others = blocks.drop_first();
        assert(first == blocks[0]);
        assert(blocks.flatten() == first + others.flatten());
        assert(all_full(others, size)) by {
            assert forall|i: int| 0 <= i < others.len() implies (#[trigger] others[i]).len()
                == size by {
                assert(others[i] == blocks[i + 1]);
            }
        }
        lemma_blocks_and_rest(others, rest, size);
        let tail = others.flatten() + rest;
        assert(all =~= first + tail);
        assert(all.take(size as int) =~= first);
        assert(all.skip(size as int) =~= tail);
        if tail.len() == 0 {
            assert(others.flatten().len() == 0);
            if others.len() > 0 {
                others.lemma_flatten_length_ge_single_element_length(0);
                others.lemma_flatten_and_flatten_alt_are_equivalent();
                assert(others[0].len() == size);
            }
            assert(others =~= Seq::<Seq<u8>>::empty());
            assert(all =~= first);
            assert(blocks =~= seq![first]);
        } else {
            assert(all.len() > size);
            if rest.len() == 0 {
                assert(seq![first] + others =~= blocks);
            } else {
                assert(seq![first] + others.push(rest) =~= blocks.push(rest));
            }
        }
    }
}

} // verus!
