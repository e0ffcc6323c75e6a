use vstd::prelude::*;

use crate::fcb::{fcb_name, first_of, name_to_8_3};
use crate::layout::{
    CCP_BASE_ADDRESS, FCB1_ADDRESS, FCB2_ADDRESS, MAX_TAIL_LEN, SYSTEM_PARAMS_ADDRESS,
    TPA_BASE_ADDRESS, TPA_STACK_ADDRESS,
};
use crate::registers::{with_pair, Reg16};
use crate::state::{MEM_SIZE, State};

verus! {

/// How many bytes of an image of `len` bytes fit from `base` to the top of
/// memory.
pub open spec fn load_len(len: int, base: u16) -> int {
    if len <= MEM_SIZE - base {
        len
    } else {
        MEM_SIZE - base
    }
}

/// Memory with `image[0..n]` copied to `base..base+n`.
pub open spec fn loaded(mem: Seq<u8>, image: Seq<u8>, base: int, n: int) -> Seq<u8> {
    Seq::new(mem.len(), |i: int| if base <= i < base + n { image[i - base] } else { mem[i] })
}

/// Length of a command tail as kept in the parameter buffer.
pub open spec fn tail_len(len: int) -> int {
    if len <= MAX_TAIL_LEN {
        len
    } else {
        MAX_TAIL_LEN as int
    }
}

/// Memory with a command tail in the parameter buffer: the count, then the
/// tail's first bytes at the addresses right after it.
pub open spec fn with_tail(mem: Seq<u8>, tail: Seq<u8>) -> Seq<u8> {
    let p = SYSTEM_PARAMS_ADDRESS as int;
    let n = tail_len(tail.len() as int);
    Seq::new(
        mem.len(),
        |i: int|
            if i == p {
                n as u8
            } else if p + 1 <= i < p + 1 + n {
                tail[i - p - 1]
            } else {
                mem[i]
            },
    )
}

/// Memory with `bytes` written from `at` up, addresses wrapping modulo 65536.
pub open spec fn placed(mem: Seq<u8>, bytes: Seq<u8>, at: u16) -> Seq<u8> {
    Seq::new(
        mem.len(),
        |a: int|
            if (a - at) % 65536 < bytes.len() {
                bytes[(a - at) % 65536]
            } else {
                mem[a]
            },
    )
}

/// The separators of a command tail: blank, tab, line feed, form feed and
/// carriage return.
pub open spec fn is_blank(b: u8) -> bool {
    b == 0x20 || b == 0x09 || b == 0x0A || b == 0x0C || b == 0x0D
}

/// First index at or after `i` that holds no blank (or the end).
pub open spec fn skip_blanks(s: Seq<u8>, i: int) -> int
    decreases s.len() - i,
{
    if i < 0 || i >= s.len() {
        i
    } else if is_blank(s[i]) {
        skip_blanks(s, i + 1)
    } else {
        i
    }
}

/// First index at or after `i` that holds a blank (or the end).
pub open spec fn skip_word(s: Seq<u8>, i: int) -> int
    decreases s.len() - i,
{
    if i < 0 || i >= s.len() {
        i
    } else if !is_blank(s[i]) {
        skip_word(s, i + 1)
    } else {
        i
    }
}

/// Memory with an 8.3 name in the file control block at `fcb`.
pub open spec fn with_fcb(mem: Seq<u8>, fcb: u16, name: Seq<u8>) -> Seq<u8> {
    placed(mem, seq![0u8] + name, fcb)
}

/// Memory after the word `s[b..e]`, if there is one (`b < e`) and it makes
/// a file name, has been put into the file control block at `fcb`.
pub open spec fn with_word_fcb(mem: Seq<u8>, s: Seq<u8>, b: int, e: int, fcb: u16) -> Seq<u8> {
    let w = s.subrange(b, e);
    if b < e && first_of(w, 0x2E) > 0 {
        with_fcb(mem, fcb, fcb_name(w))
    } else {
        mem
    }
}

/// Memory after a command tail has been given to a program: the tail in the
/// parameter buffer, then its first word in the first file control block
/// and its second word in the second.
pub open spec fn with_command_tail(mem: Seq<u8>, t: Seq<u8>) -> Seq<u8> {
    let b1 = skip_blanks(t, 0);
    let e1 = skip_word(t, b1);
    let b2 = skip_blanks(t, e1);
    let e2 = skip_word(t, b2);
    with_word_fcb(
        with_word_fcb(with_tail(mem, t), t, b1, e1, FCB1_ADDRESS),
        t,
        b2,
        e2,
        FCB2_ADDRESS,
    )
}

fn blank(b: u8) -> (r: bool)
    ensures
        r == is_blank(b),
{
    b == 0x20 || b == 0x09 || b == 0x0A || b == 0x0C || b == 0x0D
}

/// Finds the first word of `s` at or after `from`: returns `(start, end)`
/// with blanks only in `from..start` and none in `start..end`, `end` at the
/// end of `s` or on a blank. `start == s.len()` when there is no word.
pub fn next_token(s: &Vec<u8>, from: usize) -> (r: (usize, usize))
    requires
        from <= s@.len(),
    ensures
        from <= r.0 <= r.1 <= s@.len(),
        forall|i: int| from <= i < r.0 ==> is_blank(s@[i]),
        forall|i: int| r.0 <= i < r.1 ==> !is_blank(s@[i]),
        r.0 < s@.len() ==> r.0 < r.1,
        r.1 < s@.len() ==> is_blank(s@[r.1 as int]),
        r.0 as int == skip_blanks(s@, from as int),
        r.1 as int == skip_word(s@, r.0 as int),
{
    let mut b: usize = from;
    while b < s.len() && blank(s[b])
        invariant
            from <= b <= s@.len(),
            forall|i: int| from <= i < b ==> is_blank(s@[i]),
            skip_blanks(s@, b as int) == skip_blanks(s@, from as int),
        decreases s@.len() - b,
    {
        b = b + 1;
    }
    let mut e: usize = b;
    while e < s.len() && !blank(s[e])
        invariant
            b <= e <= s@.len(),
            forall|i: int| b <= i < e ==> !is_blank(s@[i]),
            skip_word(s@, e as int) == skip_word(s@, b as int),
        decreases s@.len() - e,
    {
        e = e + 1;
    }
    (b, e)
}

/// The bytes `s[start..end]`.
pub fn slice_of(s: &Vec<u8>, start: usize, end: usize) -> (r: Vec<u8>)
    requires
        start <= end <= s@.len(),
    ensures
        r@ == s@.subrange(start as int, end as int),
{
    let mut r: Vec<u8> = Vec::new();
    let mut i: usize = start;
    while i < end
        invariant
            start <= i <= end <= s@.len(),
            r@ == s@.subrange(start as int, i as int),
        decreases end - i,
    {
        r.push(s[i]);
        i = i + 1;
    }
    r
}

impl State {
    /// Copies as much of `image` as fits to memory from `base` up; the rest
    /// is dropped without error. Returns the number of bytes copied.
    pub fn load_image(&mut self, image: &Vec<u8>, base: u16) -> (n: usize)
        requires
            old(self).wf(),
        ensures
            final(self).wf(),
            final(self).same_context(*old(self)),
            n == load_len(image@.len() as int, base),
            final(self).mem@ == loaded(old(self).mem@, image@, base as int, n as int),
            final(self).reg == old(self).reg,
            final(self).index == old(self).index,
            final(self).displacement == old(self).displacement,
    {
        let room: usize = MEM_SIZE - base as usize;
        let n: usize = if image.len() <= room { image.len() } else { room };
        let mut i: usize = 0;
        while i < n
            invariant
                self.wf(),
                i <= n,
                n == load_len(image@.len() as int, base),
                self.mem@ == loaded(old(self).mem@, image@, base as int, i as int),
                self.reg == old(self).reg,
                self.same_context(*old(self)),
            decreases n - i,
        {
            let a: u16 = (base as usize + i) as u16;
            self.poke(a, image[i]);
            i = i + 1;
            assert(self.mem@ =~= loaded(old(self).mem@, image@, base as int, i as int));
        }
        assert(self.mem@ =~= loaded(old(self).mem@, image@, base as int, n as int));
        n
    }

    /// Marks the parameter buffer as holding no command tail.
    pub fn clear_command_tail(&mut self)
        requires
            old(self).wf(),
        ensures
            final(self).wf(),
            final(self).same_context(*old(self)),
            final(self).mem@ == old(self).mem@.update(SYSTEM_PARAMS_ADDRESS as int, 0u8),
            final(self).reg == old(self).reg,
    {
        self.poke(SYSTEM_PARAMS_ADDRESS, 0);
    }

    /// Writes a command tail, cut to its first 126 bytes, into the parameter
    /// buffer: the count, then the bytes at the addresses after it.
    pub fn write_command_tail(&mut self, tail: &Vec<u8>)
        requires
            old(self).wf(),
        ensures
            final(self).wf(),
            final(self).same_context(*old(self)),
            final(self).mem@ == with_tail(old(self).mem@, tail@),
            final(self).reg == old(self).reg,
    {
        let n: usize = if tail.len() <= MAX_TAIL_LEN { tail.len() } else { MAX_TAIL_LEN };
        self.poke(SYSTEM_PARAMS_ADDRESS, n as u8);
        let ghost m1 = self.mem@;
        let mut i: usize = 0;
        while i < n
            invariant
                self.wf(),
                i <= n,
                n == tail_len(tail@.len() as int),
                self.mem@ == loaded(m1, tail@, SYSTEM_PARAMS_ADDRESS + 1, i as int),
                m1 == old(self).mem@.update(SYSTEM_PARAMS_ADDRESS as int, n as u8),
                self.reg == old(self).reg,
                self.same_context(*old(self)),
            decreases n - i,
        {
            self.poke(SYSTEM_PARAMS_ADDRESS + 1 + i as u16, tail[i]);
            i = i + 1;
            assert(self.mem@ =~= loaded(m1, tail@, SYSTEM_PARAMS_ADDRESS + 1, i as int));
        }
        assert(self.mem@ =~= with_tail(old(self).mem@, tail@));
    }

    /// Writes an 8.3 name (eleven bytes) into the file control block at
    /// `fcb`, after a drive byte of zero (the default drive).
    pub fn set_fcb_name(&mut self, fcb: u16, name: &Vec<u8>)
        requires
            old(self).wf(),
            name@.len() == 11,
        ensures
            final(self).wf(),
            final(self).same_context(*old(self)),
            final(self).mem@ == with_fcb(old(self).mem@, fcb, name@),
            final(self).reg == old(self).reg,
    {
        let ghost bytes = seq![0u8] + name@;
        let mut i: usize = 0;
        while i < 12
            invariant
                self.wf(),
                i <= 12,
                name@.len() == 11,
                bytes == seq![0u8] + name@,
                self.mem@ == placed(old(self).mem@, bytes.subrange(0, i as int), fcb),
                self.reg == old(self).reg,
                self.same_context(*old(self)),
            decreases 12 - i,
        {
            let v: u8 = if i == 0 { 0 } else { name[i - 1] };
            let a: u16 = fcb.wrapping_add(i as u16);
            self.poke(a, v);
            i = i + 1;
            assert forall|x: int| 0 <= x < MEM_SIZE implies #[trigger] self.mem@[x] == placed(
                old(self).mem@,
                bytes.subrange(0, i as int),
                fcb,
            )[x] by {
                if x == a {
                    assert((x - fcb) % 65536 == i - 1);
                } else {
                    assert((x - fcb) % 65536 != i - 1);
                }
            }
            assert(self.mem@ =~= placed(old(self).mem@, bytes.subrange(0, i as int), fcb));
        }
        assert(bytes.subrange(0, 12) =~= bytes);
    }

    /// Prepares the stack of a transient program: a return address of zero
    /// sits on top of the stack below the initial stack address, so that the
    /// program's final return goes to the warm reentry address.
    pub fn prepare_stack(&mut self)
        requires
            old(self).wf(),
        ensures
            final(self).wf(),
            final(self).same_context(*old(self)),
            final(self).pair(Reg16::SP) == TPA_STACK_ADDRESS - 2,
            State::stack_top(final(self).mem@, final(self).pair(Reg16::SP)) == 0,
            final(self).reg.cells() == with_pair(
                old(self).reg.cells(),
                Reg16::SP,
                (TPA_STACK_ADDRESS - 2) as u16,
            ),
            final(self).mem@ == old(self).mem@.update(TPA_STACK_ADDRESS - 1, 0u8).update(
                TPA_STACK_ADDRESS - 2,
                0u8,
            ),
            final(self).pc_spec() == old(self).pc_spec(),
    {
        proof {
            self.reg.lemma_cells_len();
            crate::registers::lemma_pair_write_read(self.reg.cells(), Reg16::SP, TPA_STACK_ADDRESS);
        }
        self.reg.set16(Reg16::SP, TPA_STACK_ADDRESS);
        let ghost mid = self.reg.cells();
        self.push(0);
        proof {
            crate::registers::lemma_pair_write_read(mid, Reg16::SP, (TPA_STACK_ADDRESS - 2) as u16);
            assert(self.reg.cells() =~= with_pair(
                old(self).reg.cells(),
                Reg16::SP,
                (TPA_STACK_ADDRESS - 2) as u16,
            ));
        }
    }

    /// Puts the word `t[b..e]`, if it makes a file name, into the file
    /// control block at `fcb`.
    fn word_to_fcb(&mut self, t: &Vec<u8>, b: usize, e: usize, fcb: u16)
        requires
            old(self).wf(),
            b <= e <= t@.len(),
        ensures
            final(self).wf(),
            final(self).same_context(*old(self)),
            final(self).mem@ == with_word_fcb(old(self).mem@, t@, b as int, e as int, fcb),
            final(self).reg == old(self).reg,
    {
        if b < e {
            let w = slice_of(t, b, e);
            match name_to_8_3(&w) {
                Some(name) => {
                    assert(name@.len() == 11);
                    self.set_fcb_name(fcb, &name);
                },
                None => {},
            }
        }
    }

    /// Gives a command tail to the program about to run: the tail goes into
    /// the parameter buffer, and its first two words, read as file names, go
    /// into the two default file control blocks.
    pub fn apply_command_tail(&mut self, tail: &Vec<u8>)
        requires
            old(self).wf(),
        ensures
            final(self).wf(),
            final(self).same_context(*old(self)),
            final(self).mem@ == with_command_tail(old(self).mem@, tail@),
            final(self).reg == old(self).reg,
    {
        self.write_command_tail(tail);
        let (b1, e1) = next_token(tail, 0);
        self.word_to_fcb(tail, b1, e1, FCB1_ADDRESS);
        let (b2, e2) = next_token(tail, e1);
        self.word_to_fcb(tail, b2, e2, FCB2_ADDRESS);
    }

    /// Loads a transient program at the program base, gives it a stack whose
    /// top holds the return address zero, and points the program counter at
    /// it. Returns the number of bytes loaded.
    pub fn start_transient(&mut self, image: &Vec<u8>) -> (n: usize)
        requires
            old(self).wf(),
        ensures
            final(self).wf(),
            final(self).same_context(*old(self)),
            n == load_len(image@.len() as int, TPA_BASE_ADDRESS),
            final(self).pc_spec() == TPA_BASE_ADDRESS,
            final(self).pair(Reg16::SP) == TPA_STACK_ADDRESS - 2,
            final(self).reg.cells() == with_pair(
                old(self).reg.cells(),
                Reg16::SP,
                (TPA_STACK_ADDRESS - 2) as u16,
            ),
            final(self).mem@ == loaded(old(self).mem@, image@, TPA_BASE_ADDRESS as int, n as int).update(
                TPA_STACK_ADDRESS - 1,
                0u8,
            ).update(TPA_STACK_ADDRESS - 2, 0u8),
    {
        let n = self.load_image(image, TPA_BASE_ADDRESS);
        self.prepare_stack();
        self.reg.set_pc(TPA_BASE_ADDRESS);
        n
    }

    /// Loads the command processor at its base and points the program
    /// counter at it. Returns the number of bytes loaded.
    pub fn start_command_processor(&mut self, image: &Vec<u8>) -> (n: usize)
        requires
            old(self).wf(),
        ensures
            final(self).wf(),
            final(self).same_context(*old(self)),
            n == load_len(image@.len() as int, CCP_BASE_ADDRESS),
            final(self).pc_spec() == CCP_BASE_ADDRESS,
            final(self).reg.cells() == old(self).reg.cells(),
            final(self).mem@ == loaded(old(self).mem@, image@, CCP_BASE_ADDRESS as int, n as int),
    {
        let n = self.load_image(image, CCP_BASE_ADDRESS);
        self.reg.set_pc(CCP_BASE_ADDRESS);
        n
    }
}

} // verus!
