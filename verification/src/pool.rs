//! Literal pool and data-segment builder.
//!
//! String constants are deduplicated by exact match before insertion;
//! float constants are always appended.  The entry's index is the
//! suffix of its label (`str_<i>` or `float_<i>`).  The pool is
//! append-only and lives for the whole compilation.

use vstd::prelude::*;
use vstd::string::StringExecFns;
use vstd::string::StrSliceExecFns;
use crate::text::{spec_dec_nat, push_dec_u64};

verus! {

/// One entry of the literal pool.
#[derive(Debug)]
pub enum DataItem {
    StringConstant(String),
    FloatConstant(u64),
    /// A table of addresses of string constants, holding the pool
    /// index of each referenced string.
    AddressTable(Vec<u64>),
}

/// Mathematical model of one pool entry.
pub enum PoolEntry {
    Str(Seq<char>),
    Float(u64),
    Table(Seq<u64>),
}

/// Model of a pool entry value.
pub open spec fn entry_of(d: DataItem) -> PoolEntry {
    match d {
        DataItem::StringConstant(s) => PoolEntry::Str(s@),
        DataItem::FloatConstant(bits) => PoolEntry::Float(bits),
        DataItem::AddressTable(refs) => PoolEntry::Table(refs@),
    }
}

/// Append-only pool of string and float constants.
#[derive(Debug)]
pub struct LiteralPool {
    items: Vec<DataItem>,
}

impl View for LiteralPool {
    type V = Seq<PoolEntry>;

    closed spec fn view(&self) -> Seq<PoolEntry> {
        self.items@.map(|i: int, d: DataItem| entry_of(d))
    }
}

/// Index of the first string entry equal to `s`, scanning from
/// position `i`.
pub open spec fn spec_find_string_from(pool: Seq<PoolEntry>, s: Seq<char>, i: int) -> Option<int>
    decreases pool.len() - i,
{
    if i < 0 || i >= pool.len() {
        None
    } else if pool[i] == PoolEntry::Str(s) {
        Some(i)
    } else {
        spec_find_string_from(pool, s, i + 1)
    }
}

/// Index of the first string entry equal to `s`, if any.
pub open spec fn spec_find_string(pool: Seq<PoolEntry>, s: Seq<char>) -> Option<int> {
    spec_find_string_from(pool, s, 0)
}

/// Pool and index after interning the string `s`: an existing entry's
/// index on exact match, else the index of a newly appended entry.
pub open spec fn spec_intern_string(pool: Seq<PoolEntry>, s: Seq<char>) -> (Seq<PoolEntry>, int) {
    match spec_find_string(pool, s) {
        Some(i) => (pool, i),
        None => (pool.push(PoolEntry::Str(s)), pool.len() as int),
    }
}

impl LiteralPool {
    /// An empty pool.
    pub fn new() -> (p: Self)
        ensures
            p@ =~= Seq::<PoolEntry>::empty(),
    {
        LiteralPool { items: Vec::new() }
    }

    /// Number of entries.
    pub fn len(&self) -> (n: usize)
        ensures
            n == self@.len(),
    {
        self.items.len()
    }

    /// Returns the index of an existing equal string constant, else
    /// appends `s` and returns its new index.
    pub fn intern_string(&mut self, s: String) -> (idx: usize)
        ensures
            (final(self)@, idx as int) == spec_intern_string(old(self)@, s@),
            final(self)@.len() >= old(self)@.len(),
    {
        let ghost pool = self@;
        let mut i: usize = 0;
        let n = self.items.len();
        while i < n
            invariant
                n == pool.len(),
                0 <= i <= n,
                self@ == pool,
                self.items@.len() == n,
                spec_find_string(pool, s@) == spec_find_string_from(pool, s@, i as int),
            decreases n - i,
        {
            let hit = match &self.items[i] {
                DataItem::StringConstant(t) => t.eq(&s),
                DataItem::FloatConstant(_) => false,
                DataItem::AddressTable(_) => false,
            };
            if hit {
                assert(spec_find_string(pool, s@) == Some(i as int));
                return i;
            }
            assert(pool[i as int] != PoolEntry::Str(s@));
            i = i + 1;
        }
        assert(spec_find_string(pool, s@) is None);
        self.items.push(DataItem::StringConstant(s));
        assert(self@ =~= pool.push(PoolEntry::Str(s@)));
        n
    }

    /// Appends a table of string-constant addresses and returns its
    /// index.
    pub fn intern_table(&mut self, refs: Vec<u64>) -> (idx: usize)
        ensures
            final(self)@ == old(self)@.push(PoolEntry::Table(refs@)),
            idx == old(self)@.len(),
    {
        let n = self.items.len();
        self.items.push(DataItem::AddressTable(refs));
        proof {
            assert(self@ =~= old(self)@.push(PoolEntry::Table(refs@)));
        }
        n
    }

    /// Appends a float constant (no deduplication) and returns its
    /// index.
    pub fn intern_float(&mut self, bits: u64) -> (idx: usize)
        ensures
            final(self)@ == old(self)@.push(PoolEntry::Float(bits)),
            idx == old(self)@.len(),
    {
        let n = self.items.len();
        self.items.push(DataItem::FloatConstant(bits));
        assert(self@ =~= old(self)@.push(PoolEntry::Float(bits)));
        n
    }
}

/// One piece of a rendered string constant: either a run of plain
/// characters, emitted between backquotes, or a raw byte value for a
/// character the assembler's string syntax cannot embed.
#[derive(Debug)]
pub enum DataPart {
    Run(String),
    ByteVal(u8),
}

/// Model of one rendered piece.
pub enum PartV {
    Run(Seq<char>),
    ByteVal(u8),
}

/// Model of a piece value.
pub open spec fn part_view(p: DataPart) -> PartV {
    match p {
        DataPart::Run(r) => PartV::Run(r@),
        DataPart::ByteVal(b) => PartV::ByteVal(b),
    }
}

/// Model of a piece list.
pub open spec fn parts_view(ps: Seq<DataPart>) -> Seq<PartV> {
    ps.map(|j: int, p: DataPart| part_view(p))
}

/// Characters that must leave a quoted run and be emitted as raw
/// bytes: line breaks and the three quote characters.
pub open spec fn spec_is_special(c: char) -> bool {
    c == '\n' || c == '\r' || c == '`' || c == '\'' || c == '"'
}

/// Byte value of a special character.
pub open spec fn spec_special_byte(c: char) -> u8 {
    if c == '\n' {
        10u8
    } else if c == '\r' {
        13u8
    } else if c == '`' {
        96u8
    } else if c == '\'' {
        39u8
    } else {
        34u8
    }
}

#[verifier::when_used_as_spec(spec_is_special)]
fn is_special(c: char) -> (b: bool)
    ensures
        b == spec_is_special(c),
{
    c == '\n' || c == '\r' || c == '`' || c == '\'' || c == '"'
}

fn special_byte(c: char) -> (b: u8)
    requires
        spec_is_special(c),
    ensures
        b == spec_special_byte(c),
{
    if c == '\n' {
        10
    } else if c == '\r' {
        13
    } else if c == '`' {
        96
    } else if c == '\'' {
        39
    } else {
        34
    }
}

/// Splits a string constant into alternating quoted runs and raw
/// bytes; `acc` is the run collected so far.
pub open spec fn spec_split_acc(s: Seq<char>, acc: Seq<char>) -> Seq<PartV>
    decreases s.len(),
{
    if s.len() == 0 {
        if acc.len() == 0 {
            Seq::empty()
        } else {
            seq![PartV::Run(acc)]
        }
    } else if spec_is_special(s[0]) {
        (if acc.len() == 0 {
            Seq::empty()
        } else {
            seq![PartV::Run(acc)]
        }) + seq![PartV::ByteVal(spec_special_byte(s[0]))] + spec_split_acc(s.drop_first(), Seq::empty())
    } else {
        spec_split_acc(s.drop_first(), acc.push(s[0]))
    }
}

/// Piece list of a string constant.
pub open spec fn spec_split(s: Seq<char>) -> Seq<PartV> {
    spec_split_acc(s, Seq::empty())
}

/// Rendered text of one piece.
pub open spec fn spec_render_part(p: PartV) -> Seq<char> {
    match p {
        PartV::Run(r) => "`"@ + r + "`"@,
        PartV::ByteVal(b) => spec_dec_nat(b as nat),
    }
}

/// Rendered text of the pieces from index `j` on, comma-separated
/// (the separator precedes every piece but the first).
pub open spec fn spec_render_parts_from(ps: Seq<PartV>, j: int) -> Seq<char>
    decreases ps.len() - j,
{
    if j < 0 || j >= ps.len() {
        Seq::empty()
    } else {
        (if j == 0 {
            Seq::<char>::empty()
        } else {
            ", "@
        }) + spec_render_part(ps[j]) + spec_render_parts_from(ps, j + 1)
    }
}

/// Operand text of a string constant's directive: the joined pieces
/// followed by the null terminator (a bare `0` for an empty string).
pub open spec fn spec_string_body(s: Seq<char>) -> Seq<char> {
    let ps = spec_split(s);
    if ps.len() == 0 {
        "0"@
    } else {
        spec_render_parts_from(ps, 0) + ", 0"@
    }
}

/// The `str_<k>` references of an address table from index `j` on,
/// comma-separated.
pub open spec fn spec_table_refs_from(ks: Seq<u64>, j: int) -> Seq<char>
    decreases ks.len() - j,
{
    if j < 0 || j >= ks.len() {
        Seq::empty()
    } else {
        (if j == 0 {
            Seq::<char>::empty()
        } else {
            ", "@
        }) + "str_"@ + spec_dec_nat(ks[j] as nat) + spec_table_refs_from(ks, j + 1)
    }
}

/// Operand text of an address table (a bare `0` for an empty table).
pub open spec fn spec_table_body(ks: Seq<u64>) -> Seq<char> {
    if ks.len() == 0 {
        "0"@
    } else {
        spec_table_refs_from(ks, 0)
    }
}

/// The data-segment line of entry `e` at index `i`: one directive per
/// entry, floats as their raw 64-bit pattern.
pub open spec fn spec_data_line(i: int, e: PoolEntry) -> Seq<char> {
    match e {
        PoolEntry::Str(s) => "    str_"@ + spec_dec_nat(i as nat) + " db "@ + spec_string_body(s)
            + "\n"@,
        PoolEntry::Float(bits) => "    float_"@ + spec_dec_nat(i as nat) + " dq "@ + spec_dec_nat(
            bits as nat,
        ) + "\n"@,
        PoolEntry::Table(ks) => "    arr_"@ + spec_dec_nat(i as nat) + " dq "@ + spec_table_body(
            ks,
        ) + "\n"@,
    }
}

/// Data-segment lines of the entries from index `i` on.
pub open spec fn spec_render_data_from(pool: Seq<PoolEntry>, i: int) -> Seq<char>
    decreases pool.len() - i,
{
    if i < 0 || i >= pool.len() {
        Seq::empty()
    } else {
        spec_data_line(i, pool[i]) + spec_render_data_from(pool, i + 1)
    }
}

/// The whole data segment: header line, then one line per entry.
pub open spec fn spec_render_data_segment(pool: Seq<PoolEntry>) -> Seq<char> {
    "section .data\n"@ + spec_render_data_from(pool, 0)
}

/// Splits a string constant into quoted runs and raw byte values.
fn split_string_const(s: &str) -> (parts: Vec<DataPart>)
    ensures
        parts_view(parts@) == spec_split(s@),
{
    let n = s.unicode_len();
    let mut parts: Vec<DataPart> = Vec::new();
    let mut start: usize = 0;
    let mut i: usize = 0;
    proof {
        assert(s@.skip(0) =~= s@);
        assert(s@.subrange(0, 0) =~= Seq::<char>::empty());
        assert(parts_view(parts@) =~= Seq::<PartV>::empty());
        assert(parts_view(parts@) + spec_split_acc(s@.skip(0), s@.subrange(0, 0)) =~= spec_split(
            s@,
        ));
    }
    while i < n
        invariant
            n == s@.len(),
            0 <= start <= i <= n,
            parts_view(parts@) + spec_split_acc(
                s@.skip(i as int),
                s@.subrange(start as int, i as int),
            ) == spec_split(s@),
        decreases n - i,
    {
        let c = s.get_char(i);
        let ghost rest = s@.skip(i as int);
        let ghost acc = s@.subrange(start as int, i as int);
        proof {
            assert(rest[0] == s@[i as int]);
            assert(rest.drop_first() =~= s@.skip(i as int + 1));
        }
        if is_special(c) {
            let ghost before = parts_view(parts@);
            if start < i {
                let run = s.substring_char(start, i).to_owned();
                parts.push(DataPart::Run(run));
            }
            parts.push(DataPart::ByteVal(special_byte(c)));
            proof {
                if acc.len() == 0 {
                    assert(parts_view(parts@) =~= before + seq![
                        PartV::ByteVal(spec_special_byte(c)),
                    ]);
                } else {
                    assert(parts_view(parts@) =~= before + seq![
                        PartV::Run(acc),
                        PartV::ByteVal(spec_special_byte(c)),
                    ]);
                }
                assert(s@.subrange(i as int + 1, i as int + 1) =~= Seq::<char>::empty());
                assert(parts_view(parts@) + spec_split_acc(
                    s@.skip(i as int + 1),
                    Seq::empty(),
                ) =~= spec_split(s@));
            }
            start = i + 1;
        } else {
            proof {
                assert(acc.push(s@[i as int]) =~= s@.subrange(start as int, i as int + 1));
            }
        }
        i = i + 1;
    }
    let ghost acc = s@.subrange(start as int, n as int);
    proof {
        assert(s@.skip(n as int) =~= Seq::<char>::empty());
    }
    if start < n {
        let ghost before = parts_view(parts@);
        let run = s.substring_char(start, n).to_owned();
        parts.push(DataPart::Run(run));
        proof {
            assert(parts_view(parts@) =~= before.push(PartV::Run(acc)));
            assert(before.push(PartV::Run(acc)) =~= before + seq![PartV::Run(acc)]);
            assert(parts_view(parts@) =~= spec_split(s@));
        }
    } else {
        proof {
            assert(parts_view(parts@) + Seq::<PartV>::empty() =~= parts_view(parts@));
        }
    }
    parts
}

/// Appends the comma-separated rendering of the pieces to `out`.
fn push_parts(out: &mut String, parts: &Vec<DataPart>)
    ensures
        final(out)@ == old(out)@ + spec_render_parts_from(parts_view(parts@), 0),
{
    let ghost ps = parts_view(parts@);
    let mut j: usize = 0;
    while j < parts.len()
        invariant
            ps == parts_view(parts@),
            ps.len() == parts@.len(),
            0 <= j <= parts@.len(),
            out@ + spec_render_parts_from(ps, j as int) == old(out)@ + spec_render_parts_from(
                ps,
                0,
            ),
        decreases parts@.len() - j,
    {
        let ghost before = out@;
        if j > 0 {
            out.append(", ");
        }
        match &parts[j] {
            DataPart::Run(r) => {
                out.append("`");
                out.append(r.as_str());
                out.append("`");
            },
            DataPart::ByteVal(b) => {
                proof {
                    assert(*b as u64 as nat == *b as nat);
                }
                push_dec_u64(out, *b as u64);
            },
        }
        proof {
            assert(ps[j as int] == part_view(parts@[j as int]));
            assert(out@ =~= before + (if j == 0 {
                Seq::<char>::empty()
            } else {
                ", "@
            }) + spec_render_part(ps[j as int]));
            assert(out@ + spec_render_parts_from(ps, j as int + 1) =~= before
                + spec_render_parts_from(ps, j as int));
        }
        j = j + 1;
    }
    proof {
        assert(out@ + Seq::<char>::empty() =~= out@);
    }
}

/// Appends the comma-separated `str_<k>` references to `out`.
fn push_table_refs(out: &mut String, ks: &Vec<u64>)
    ensures
        final(out)@ == old(out)@ + spec_table_refs_from(ks@, 0),
{
    let mut j: usize = 0;
    while j < ks.len()
        invariant
            0 <= j <= ks@.len(),
            out@ + spec_table_refs_from(ks@, j as int) == old(out)@ + spec_table_refs_from(ks@, 0),
        decreases ks@.len() - j,
    {
        let ghost before = out@;
        if j > 0 {
            out.append(", ");
        }
        out.append("str_");
        push_dec_u64(out, ks[j]);
        proof {
            assert(out@ =~= before + (if j == 0 {
                Seq::<char>::empty()
            } else {
                ", "@
            }) + "str_"@ + spec_dec_nat(ks@[j as int] as nat));
            assert(out@ + spec_table_refs_from(ks@, j as int + 1) =~= before
                + spec_table_refs_from(ks@, j as int));
        }
        j = j + 1;
    }
    proof {
        assert(out@ + Seq::<char>::empty() =~= out@);
    }
}

impl LiteralPool {
    /// Renders the data segment: one directive per entry.  Strings
    /// are split into quoted runs and raw bytes and null-terminated;
    /// floats are emitted as their raw 64-bit pattern.
    pub fn render_data_segment(&self) -> (out: String)
        ensures
            out@ == spec_render_data_segment(self@),
    {
        let mut out = String::new();
        out.append("section .data\n");
        let mut i: usize = 0;
        while i < self.items.len()
            invariant
                self@.len() == self.items@.len(),
                0 <= i <= self.items@.len(),
                out@ + spec_render_data_from(self@, i as int) == "section .data\n"@
                    + spec_render_data_from(self@, 0),
            decreases self.items@.len() - i,
        {
            let ghost before = out@;
            proof {
                assert(self@[i as int] == entry_of(self.items@[i as int]));
                assert(i as u64 as nat == i as nat);
            }
            match &self.items[i] {
                DataItem::StringConstant(s) => {
                    out.append("    str_");
                    push_dec_u64(&mut out, i as u64);
                    out.append(" db ");
                    let parts = split_string_const(s.as_str());
                    if parts.len() == 0 {
                        proof {
                            assert(spec_split(s@).len() == 0);
                        }
                        out.append("0");
                    } else {
                        push_parts(&mut out, &parts);
                        out.append(", 0");
                    }
                    out.append("\n");
                    proof {
                        assert(out@ =~= before + spec_data_line(i as int, self@[i as int]));
                    }
                },
                DataItem::FloatConstant(bits) => {
                    out.append("    float_");
                    push_dec_u64(&mut out, i as u64);
                    out.append(" dq ");
                    push_dec_u64(&mut out, *bits);
                    out.append("\n");
                    proof {
                        assert(out@ =~= before + spec_data_line(i as int, self@[i as int]));
                    }
                },
                DataItem::AddressTable(refs) => {
                    out.append("    arr_");
                    push_dec_u64(&mut out, i as u64);
                    out.append(" dq ");
                    if refs.len() == 0 {
                        out.append("0");
                    } else {
                        push_table_refs(&mut out, refs);
                    }
                    out.append("\n");
                    proof {
                        assert(out@ =~= before + spec_data_line(i as int, self@[i as int]));
                    }
                },
            }
            proof {
                assert(out@ + spec_render_data_from(self@, i as int + 1) =~= before
                    + spec_render_data_from(self@, i as int));
            }
            i = i + 1;
        }
        proof {
            assert(out@ + Seq::<char>::empty() =~= out@);
        }
        out
    }
}

/// After a string was interned, interning an equal string again
/// returns the same index and leaves the pool's size unchanged.
pub proof fn lemma_intern_string_dedup(pool: Seq<PoolEntry>, s1: Seq<char>, s2: Seq<char>)
    requires
        s1 == s2,
    ensures
        spec_intern_string(spec_intern_string(pool, s1).0, s2).1 == spec_intern_string(pool, s1).1,
        spec_intern_string(spec_intern_string(pool, s1).0, s2).0 == spec_intern_string(pool, s1).0,
{
    match spec_find_string(pool, s1) {
        Some(i) => {
        },
        None => {
            lemma_find_from_push(pool, s1, 0);
        },
    }
}

/// Appending a string not yet in the pool makes it findable at the
/// old length.
proof fn lemma_find_from_push(pool: Seq<PoolEntry>, s: Seq<char>, i: int)
    requires
        0 <= i <= pool.len(),
        spec_find_string_from(pool, s, i) is None,
    ensures
        spec_find_string_from(pool.push(PoolEntry::Str(s)), s, i) == Some(pool.len() as int),
    decreases pool.len() - i,
{
    let pushed = pool.push(PoolEntry::Str(s));
    if i == pool.len() {
        assert(pushed[i] == PoolEntry::Str(s));
    } else {
        assert(pushed[i] == pool[i]);
        lemma_find_from_push(pool, s, i + 1);
    }
}

} // verus!
