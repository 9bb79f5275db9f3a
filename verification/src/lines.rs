//! The format of the two flat files: one key on each line.

use vstd::prelude::*;
use vstd::string::*;
use vstd::utf8::encode_utf8;

verus! {

/// The byte that ends a line.
pub const LINE_END: u8 = 10;

/// The line that holds `key`: its bytes in UTF-8, then a line feed.
pub open spec fn line_text(key: Seq<char>) -> Seq<u8> {
    encode_utf8(key).push(LINE_END)
}

/// The text of a file that holds `keys`, one on each line.
pub open spec fn lines_text(keys: Seq<Seq<char>>) -> Seq<u8>
    decreases keys.len(),
{
    if keys.len() == 0 {
        Seq::empty()
    } else {
        lines_text(keys.drop_last()) + line_text(keys.last())
    }
}

/// The text of two lists of keys, one after the other, is the text of the
/// first and then the text of the second.
pub proof fn lines_text_of_joined(first: Seq<Seq<char>>, second: Seq<Seq<char>>)
    ensures
        lines_text(first + second) == lines_text(first) + lines_text(second),
    decreases second.len(),
{
    if second.len() == 0 {
        assert(first + second =~= first);
        assert(lines_text(first) + Seq::<u8>::empty() =~= lines_text(first));
    } else {
        assert((first + second).drop_last() =~= first + second.drop_last());
        assert((first + second).last() == second.last());
        lines_text_of_joined(first, second.drop_last());
        assert((lines_text(first) + lines_text(second.drop_last())) + line_text(second.last())
            =~= lines_text(first) + (lines_text(second.drop_last()) + line_text(second.last())));
    }
}

/// The line that holds `key`.
pub fn key_line(key: &str) -> (out: Vec<u8>)
    ensures
        out@ == line_text(key@),
{
    let mut out = key.as_bytes_vec();
    out.push(LINE_END);
    out
}

/// Whether a character is white space: one of the characters that Unicode
/// lists as such.
pub open spec fn is_white(c: char) -> bool {
    let n = c as u32;
    ||| 0x09 <= n <= 0x0D
    ||| n == 0x20
    ||| n == 0x85
    ||| n == 0xA0
    ||| n == 0x1680
    ||| 0x2000 <= n <= 0x200A
    ||| n == 0x2028
    ||| n == 0x2029
    ||| n == 0x202F
    ||| n == 0x205F
    ||| n == 0x3000
}

/// `s` without the white space that it begins with.
pub open spec fn trim_start(s: Seq<char>) -> Seq<char>
    decreases s.len(),
{
    if s.len() > 0 && is_white(s[0]) {
        trim_start(s.drop_first())
    } else {
        s
    }
}

/// `s` without the white space that it ends with.
pub open spec fn trim_end(s: Seq<char>) -> Seq<char>
    decreases s.len(),
{
    if s.len() > 0 && is_white(s.last()) {
        trim_end(s.drop_last())
    } else {
        s
    }
}

/// The key on a line of the spool: the line without the white space at
/// either end.
pub open spec fn trimmed(s: Seq<char>) -> Seq<char> {
    trim_end(trim_start(s))
}

/// Whether a character is white space.
pub fn is_whitespace(c: char) -> (out: bool)
    ensures
        out == is_white(c),
{
    let n: u32 = c as u32;
    (0x09 <= n && n <= 0x0D) || n == 0x20 || n == 0x85 || n == 0xA0 || n == 0x1680 || (0x2000 <= n
        && n <= 0x200A) || n == 0x2028 || n == 0x2029 || n == 0x202F || n == 0x205F || n == 0x3000
}

/// The key on one line of the spool.
pub fn spool_key(line: &str) -> (out: String)
    ensures
        out@ == trimmed(line@),
{
    let n: usize = line.unicode_len();
    let mut from: usize = 0;
    proof {
        assert(line@.skip(0) =~= line@);
    }
    while from < n
        invariant
            n == line@.len(),
            from <= n,
            trim_start(line@) == trim_start(line@.skip(from as int)),
        ensures
            from <= n,
            trim_start(line@) == line@.skip(from as int),
        decreases n - from,
    {
        let c = line.get_char(from);
        proof {
            assert(line@.skip(from as int)[0] == c);
            assert(line@.skip(from as int).drop_first() =~= line@.skip(from + 1));
        }
        if !is_whitespace(c) {
            break ;
        }
        from = from + 1;
    }
    let mut to: usize = n;
    proof {
        assert(line@.skip(from as int) =~= line@.subrange(from as int, to as int));
    }
    while to > from
        invariant
            n == line@.len(),
            from <= to <= n,
            trimmed(line@) == trim_end(line@.subrange(from as int, to as int)),
        ensures
            from <= to <= n,
            trimmed(line@) == line@.subrange(from as int, to as int),
        decreases to - from,
    {
        let c = line.get_char(to - 1);
        proof {
            assert(line@.subrange(from as int, to as int).last() == c);
            assert(line@.subrange(from as int, to as int).drop_last() =~= line@.subrange(
                from as int,
                to - 1,
            ));
        }
        if !is_whitespace(c) {
            break ;
        }
        to = to - 1;
    }
    String::from_str(line.substring_char(from, to))
}

/// The keys of the spool, from its lines: each line without the white space
/// at either end, in the order of the lines.
pub fn spool_keys(lines: &Vec<String>) -> (out: Vec<String>)
    ensures
        out@.len() == lines@.len(),
        forall|i: int| 0 <= i < lines@.len() ==> (#[trigger] out@[i])@ == trimmed(lines@[i]@),
{
    let mut out: Vec<String> = Vec::new();
    let mut i: usize = 0;
    while i < lines.len()
        invariant
            i <= lines@.len(),
            out@.len() == i,
            forall|k: int| 0 <= k < i ==> (#[trigger] out@[k])@ == trimmed(lines@[k]@),
        decreases lines@.len() - i,
    {
        out.push(spool_key(lines[i].as_str()));
        i = i + 1;
    }
    out
}

} // verus!
