use vstd::prelude::*;
use vstd::string::StringExecFns;

verus! {

/// The text of each line, in order.
pub open spec fn texts(lines: Seq<String>) -> Seq<Seq<char>> {
    lines.map_values(|s: String| s@)
}

/// The text of line `n` (1-indexed) of `lines`, or the empty text when there is no such line.
pub open spec fn line_at(lines: Seq<Seq<char>>, n: int) -> Seq<char> {
    if 1 <= n && n <= lines.len() {
        lines[n - 1]
    } else {
        Seq::empty()
    }
}

/// The lines numbered `start..=end` among the first `n` lines, each followed by a newline.
pub open spec fn block_upto(lines: Seq<Seq<char>>, start: int, end: int, n: int) -> Seq<char>
    decreases n,
{
    if n <= 0 {
        Seq::empty()
    } else {
        let rest = block_upto(lines, start, end, n - 1);
        if start <= n && n <= end {
            rest + lines[n - 1] + seq!['\n']
        } else {
            rest
        }
    }
}

/// The lines numbered `start..=end` (1-indexed, inclusive) of the whole text, each
/// followed by a newline; empty when `start > end`.
pub open spec fn block_of(lines: Seq<Seq<char>>, start: int, end: int) -> Seq<char> {
    block_upto(lines, start, end, lines.len() as int)
}

/// Lines past `end` add nothing to the block.
proof fn lemma_block_stable(lines: Seq<Seq<char>>, start: int, end: int, n: int, m: int)
    requires
        end <= n <= m,
    ensures
        block_upto(lines, start, end, m) == block_upto(lines, start, end, n),
    decreases m - n,
{
    if m > n {
        lemma_block_stable(lines, start, end, n, m - 1);
    }
}

/// Returns the line numbered `line_number` and the block of lines numbered
/// `start_block..=end_block` of a text given line by line (all numbers 1-indexed).
///
/// A line number past the end gives an empty line; block bounds past the end give
/// the lines that exist; `start_block > end_block` gives an empty block.
pub fn extract_line_and_block(
    lines: &Vec<String>,
    line_number: usize,
    start_block: usize,
    end_block: usize,
) -> (r: (String, String))
    ensures
        r.0@ == line_at(texts(lines@), line_number as int),
        r.1@ == block_of(texts(lines@), start_block as int, end_block as int),
{
    let ghost ls = texts(lines@);
    let mut line_content = String::from_str("");
    let mut block_content = String::from_str("");
    proof {
        reveal_strlit("");
    }
    let mut i: usize = 0;
    while i < lines.len()
        invariant
            ls == texts(lines@),
            i <= lines.len(),
            line_content@ == (if 1 <= line_number <= i {
                line_at(ls, line_number as int)
            } else {
                Seq::<char>::empty()
            }),
            block_content@ == block_upto(ls, start_block as int, end_block as int, i as int),
        ensures
            line_content@ == line_at(ls, line_number as int),
            block_content@ == block_of(ls, start_block as int, end_block as int),
        decreases lines.len() - i,
    {
        let number: usize = i + 1;
        let line = &lines[i];
        if number == line_number {
            line_content = line.clone();
        }
        if number >= start_block && number <= end_block {
            block_content.append(line.as_str());
            block_content.append("\n");
            proof {
                reveal_strlit("\n");
            }
        }
        i = number;
        if i > end_block && !line_content.as_str().is_empty() {
            proof {
                lemma_block_stable(ls, start_block as int, end_block as int, i as int, ls.len() as int);
            }
            break;
        }
    }
    (line_content, block_content)
}

} // verus!
