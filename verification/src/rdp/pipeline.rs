//! The first RDP command pipeline: a queue of 64-bit command words that
//! is filled from a big-endian byte buffer and decoded one command at a
//! time.

pub mod operation;

use crate::memory::{read_be_u64, spec_read_be_u64};
use operation::{FillTriangle, SetTile};
use std::collections::VecDeque;
use vstd::prelude::*;

verus! {

pub struct Pipeline {
    commands: VecDeque<u64>,
}

/// How many words follow a command word as its arguments.
pub open spec fn words_following(word: u64) -> nat {
    let opcode = (word >> 56) as u8;
    if opcode == 0x08 || opcode == 0x3d {
        3
    } else if opcode == 0x24 {
        1
    } else {
        0
    }
}

/// A command stream in which every command is followed by all of its
/// argument words.
pub open spec fn is_complete_stream(s: Seq<u64>) -> bool
    decreases s.len(),
{
    if s.len() == 0 {
        true
    } else {
        let n = 1 + words_following(s[0]);
        s.len() >= n && is_complete_stream(s.subrange(n as int, s.len() as int))
    }
}

/// The command words of a byte buffer: its whole 8-byte chunks, big-endian.
pub open spec fn command_words(bytes: Seq<u8>) -> Seq<u64> {
    Seq::new(bytes.len() / 8, |i: int| spec_read_be_u64(bytes, 8 * i))
}

impl Pipeline {
    pub closed spec fn spec_commands(&self) -> Seq<u64> {
        self.commands@
    }

    pub fn new() -> (r: Self)
        ensures
            r.spec_commands() == Seq::<u64>::empty(),
    {
        Pipeline { commands: VecDeque::new() }
    }

    /// Replaces the queue with the command words of `commands`; trailing
    /// bytes that do not fill a word are ignored.
    pub fn upload(&mut self, commands: &[u8])
        ensures
            final(self).spec_commands() == command_words(commands@),
    {
        self.commands.clear();
        let count = commands.len() / 8;
        let mut i: usize = 0;
        while i < count
            invariant
                count == commands@.len() / 8,
                commands@.len() <= usize::MAX,
                i <= count,
                self.commands@ == command_words(commands@).subrange(0, i as int),
            decreases count - i,
        {
            let word = read_be_u64(commands, 8 * i);
            self.commands.push_back(word);
            i = i + 1;
            assert(self.commands@ =~= command_words(commands@).subrange(0, i as int));
        }
        assert(command_words(commands@).subrange(0, count as int) =~= command_words(commands@));
    }

    /// Takes the next word off the queue.
    pub fn next_word(&mut self) -> (r: u64)
        requires
            old(self).spec_commands().len() > 0,
        ensures
            r == old(self).spec_commands()[0],
            final(self).spec_commands() == old(self).spec_commands().drop_first(),
    {
        match self.commands.pop_front() {
            Some(word) => word,
            None => {
                assert(false);
                0
            },
        }
    }

    /// Decodes every queued command, consuming its argument words.
    pub fn run(&mut self, rdram: &mut [u8])
        requires
            is_complete_stream(old(self).spec_commands()),
        ensures
            final(self).spec_commands() == Seq::<u64>::empty(),
            final(rdram)@ == old(rdram)@,
    {
        while self.commands.len() > 0
            invariant
                is_complete_stream(self.commands@),
                rdram@ == old(rdram)@,
            decreases self.commands@.len(),
        {
            let ghost before = self.commands@;
            let word = self.next_word();
            assert(self.commands@ == before.subrange(1, before.len() as int));
            let opcode = (word >> 56) as u8;
            if opcode == 0x08 || opcode == 0x3d {
                FillTriangle::from(word).exec(self, rdram);
            } else if opcode == 0x24 {
                let _texture = self.next_word();
            } else if opcode == 0x35 {
                SetTile::from(word).exec(self, rdram);
            }
            assert(self.commands@ =~= before.subrange(
                1 + words_following(before[0]) as int,
                before.len() as int,
            ));
        }
        assert(self.commands@ =~= Seq::<u64>::empty());
    }
}

} // verus!
