//! The symbol file format: one entry to a line, the code address in base 16,
//! a comma, and the label.

use std::collections::HashMap;
use vstd::prelude::*;
use vstd::string::StrSliceExecFns;
use crate::text::{chars_of, find_from, parse_u16, read_u16, slice_of, split};

verus! {

/// The separator between the address and the label.
pub const COMMA: char = ',';

/// Why a line is no entry of a symbol file.
#[derive(Clone, Copy, Debug, PartialEq, Eq, Structural)]
pub enum SymbolError {
    /// The text before the first comma is no base-16 number that fits in 16
    /// bits.
    BadAddress,
    /// The line holds no comma.
    MissingLabel,
}

/// The entry that `line` denotes: the address before the first comma and the
/// label after it, up to the next comma or the end of the line.
pub open spec fn parse_symbol(line: Seq<char>) -> Result<(u16, Seq<char>), SymbolError> {
    let fields = split(line, COMMA);
    match parse_u16(fields[0], 16) {
        Some(addr) => if fields.len() < 2 {
            Err(SymbolError::MissingLabel)
        } else {
            Ok((addr, fields[1]))
        },
        None => Err(SymbolError::BadAddress),
    }
}

/// Every one of `lines` is an entry.
pub open spec fn all_entries(lines: Seq<Seq<char>>) -> bool {
    forall|k: int| 0 <= k < lines.len() ==> (#[trigger] parse_symbol(lines[k])) is Ok
}

/// The table that the entries `lines` build: each address has the label of
/// the last line that names it.
pub open spec fn table_of(lines: Seq<Seq<char>>) -> Map<u16, Seq<char>>
    decreases lines.len(),
{
    if lines.len() == 0 {
        Map::empty()
    } else {
        match parse_symbol(lines.last()) {
            Ok((addr, label)) => table_of(lines.drop_last()).insert(addr, label),
            Err(_) => table_of(lines.drop_last()),
        }
    }
}

/// The lines held by `lines`, each as a sequence of characters.
pub open spec fn line_views(lines: Seq<String>) -> Seq<Seq<char>> {
    Seq::new(lines.len(), |i: int| lines[i]@)
}

/// The labels of `table`, each as a sequence of characters.
pub open spec fn label_views(table: Map<u16, String>) -> Map<u16, Seq<char>> {
    Map::new(|a: u16| table.contains_key(a), |a: u16| table[a]@)
}

/// Reads one line of a symbol file.
pub fn parse_symbol_line(line: &str) -> (r: Result<(u16, String), SymbolError>)
    ensures
        match r {
            Ok((addr, label)) => parse_symbol(line@) == Ok::<(u16, Seq<char>), SymbolError>(
                (addr, label@),
            ),
            Err(e) => parse_symbol(line@) == Err::<(u16, Seq<char>), SymbolError>(e),
        },
{
    let chars = chars_of(line);
    let i = find_from(&chars, 0, COMMA);
    let head = slice_of(&chars, 0, i);
    assert(chars@.skip(0) =~= chars@);
    match read_u16(&head, 16) {
        Some(addr) => {
            if i >= chars.len() {
                Err(SymbolError::MissingLabel)
            } else {
                let j = find_from(&chars, i + 1, COMMA);
                let label = line.substring_char(i + 1, j).to_owned();
                proof {
                    let rest = chars@.skip(i + 1);
                    assert(label@ =~= rest.take(j - i - 1));
                    assert(split(chars@, COMMA)[1] == split(rest, COMMA)[0]);
                }
                Ok((addr, label))
            }
        },
        None => Err(SymbolError::BadAddress),
    }
}

/// Builds the symbol table from the lines of a symbol file.
///
/// Fails at the first line that is no entry, with the index of that line.
pub fn parse_symbols(lines: &Vec<String>) -> (r: Result<HashMap<u16, String>, (usize, SymbolError)>)
    ensures
        match r {
            Ok(table) => {
                &&& all_entries(line_views(lines@))
                &&& label_views(table@) == table_of(line_views(lines@))
            },
            Err((k, e)) => {
                &&& k < lines@.len()
                &&& all_entries(line_views(lines@).take(k as int))
                &&& parse_symbol(lines@[k as int]@) == Err::<(u16, Seq<char>), SymbolError>(e)
            },
        },
{
    broadcast use vstd::std_specs::hash::group_hash_axioms;

    let mut table: HashMap<u16, String> = HashMap::new();
    let mut k: usize = 0;
    let ghost all = line_views(lines@);
    while k < lines.len()
        invariant
            k <= lines@.len(),
            all == line_views(lines@),
            all_entries(all.take(k as int)),
            label_views(table@) == table_of(all.take(k as int)),
        decreases lines.len() - k,
    {
        let ghost seen = all.take(k as int);
        let ghost next = all.take(k + 1);
        assert(next.drop_last() =~= seen);
        match parse_symbol_line(lines[k].as_str()) {
            Ok((addr, label)) => {
                table.insert(addr, label);
                assert forall|n: int| 0 <= n < next.len() implies (#[trigger] parse_symbol(
                    next[n],
                )) is Ok by {}
            },
            Err(e) => {
                return Err((k, e));
            },
        }
        k += 1;
    }
    assert(all.take(k as int) =~= all);
    Ok(table)
}

} // verus!
