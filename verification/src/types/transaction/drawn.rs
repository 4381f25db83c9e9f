//! What is made of the numbers drawn for a random transaction.

use crate::primitives::{EraId, Timestamp};
use crate::contract_runtime::types::TransactionEntryPoint;
use crate::types::transaction::fields::{NamedArg, TransactionScheduling};
use vstd::bytes::spec_u64_to_le_bytes;
use vstd::prelude::*;
use vstd::string::StringExecFns;

verus! {

/// The letter that the drawn number `draw` stands for: one of the twenty-six from `a` to `z`.
pub open spec fn spec_letter(draw: u32) -> char {
    match draw % 26 {
        0 => 'a',
        1 => 'b',
        2 => 'c',
        3 => 'd',
        4 => 'e',
        5 => 'f',
        6 => 'g',
        7 => 'h',
        8 => 'i',
        9 => 'j',
        10 => 'k',
        11 => 'l',
        12 => 'm',
        13 => 'n',
        14 => 'o',
        15 => 'p',
        16 => 'q',
        17 => 'r',
        18 => 's',
        19 => 't',
        20 => 'u',
        21 => 'v',
        22 => 'w',
        23 => 'x',
        24 => 'y',
        _ => 'z',
    }
}

/// The letter that the drawn number `draw` stands for, as a text.
pub fn letter(draw: u32) -> (text: &'static str)
    ensures
        text@ == seq![spec_letter(draw)],
{
    let rest: u32 = draw % 26;
    match rest {
        0 => {
            proof {
                reveal_strlit("a");
            }
            assert("a"@ =~= seq!['a']);
            "a"
        },
        1 => {
            proof {
                reveal_strlit("b");
            }
            assert("b"@ =~= seq!['b']);
            "b"
        },
        2 => {
            proof {
                reveal_strlit("c");
            }
            assert("c"@ =~= seq!['c']);
            "c"
        },
        3 => {
            proof {
                reveal_strlit("d");
            }
            assert("d"@ =~= seq!['d']);
            "d"
        },
        4 => {
            proof {
                reveal_strlit("e");
            }
            assert("e"@ =~= seq!['e']);
            "e"
        },
        5 => {
            proof {
                reveal_strlit("f");
            }
            assert("f"@ =~= seq!['f']);
            "f"
        },
        6 => {
            proof {
                reveal_strlit("g");
            }
            assert("g"@ =~= seq!['g']);
            "g"
        },
        7 => {
            proof {
                reveal_strlit("h");
            }
            assert("h"@ =~= seq!['h']);
            "h"
        },
        8 => {
            proof {
                reveal_strlit("i");
            }
            assert("i"@ =~= seq!['i']);
            "i"
        },
        9 => {
            proof {
                reveal_strlit("j");
            }
            assert("j"@ =~= seq!['j']);
            "j"
        },
        10 => {
            proof {
                reveal_strlit("k");
            }
            assert("k"@ =~= seq!['k']);
            "k"
        },
        11 => {
            proof {
                reveal_strlit("l");
            }
            assert("l"@ =~= seq!['l']);
            "l"
        },
        12 => {
            proof {
                reveal_strlit("m");
            }
            assert("m"@ =~= seq!['m']);
            "m"
        },
        13 => {
            proof {
                reveal_strlit("n");
            }
            assert("n"@ =~= seq!['n']);
            "n"
        },
        14 => {
            proof {
                reveal_strlit("o");
            }
            assert("o"@ =~= seq!['o']);
            "o"
        },
        15 => {
            proof {
                reveal_strlit("p");
            }
            assert("p"@ =~= seq!['p']);
            "p"
        },
        16 => {
            proof {
                reveal_strlit("q");
            }
            assert("q"@ =~= seq!['q']);
            "q"
        },
        17 => {
            proof {
                reveal_strlit("r");
            }
            assert("r"@ =~= seq!['r']);
            "r"
        },
        18 => {
            proof {
                reveal_strlit("s");
            }
            assert("s"@ =~= seq!['s']);
            "s"
        },
        19 => {
            proof {
                reveal_strlit("t");
            }
            assert("t"@ =~= seq!['t']);
            "t"
        },
        20 => {
            proof {
                reveal_strlit("u");
            }
            assert("u"@ =~= seq!['u']);
            "u"
        },
        21 => {
            proof {
                reveal_strlit("v");
            }
            assert("v"@ =~= seq!['v']);
            "v"
        },
        22 => {
            proof {
                reveal_strlit("w");
            }
            assert("w"@ =~= seq!['w']);
            "w"
        },
        23 => {
            proof {
                reveal_strlit("x");
            }
            assert("x"@ =~= seq!['x']);
            "x"
        },
        24 => {
            proof {
                reveal_strlit("y");
            }
            assert("y"@ =~= seq!['y']);
            "y"
        },
        _ => {
            proof {
                reveal_strlit("z");
            }
            assert("z"@ =~= seq!['z']);
            "z"
        },
    }
}

/// The text made of the letters that the drawn numbers `draws` stand for, in order.
pub open spec fn spec_drawn_text(draws: Seq<u32>) -> Seq<char> {
    Seq::new(draws.len(), |i: int| spec_letter(draws[i]))
}

/// The text made of the letters that the drawn numbers `draws` stand for, in order.
pub fn drawn_text(draws: &Vec<u32>) -> (text: String)
    ensures
        text@ == spec_drawn_text(draws@),
{
    let mut text: String = String::new();
    let mut i: usize = 0;
    assert(text@ =~= spec_drawn_text(draws@.take(0)));
    while i < draws.len()
        invariant
            i <= draws@.len(),
            text@ == spec_drawn_text(draws@.take(i as int)),
        decreases draws@.len() - i,
    {
        let ghost before = text@;
        text = text.concat(letter(draws[i]));
        assert(text@ =~= spec_drawn_text(draws@.take(i + 1))) by {
            assert(text@ == before + seq![spec_letter(draws@[i as int])]);
            assert forall|k: int| 0 <= k < i + 1 implies text@[k] == spec_drawn_text(
                draws@.take(i + 1),
            )[k] by {
                if k < i {
                    assert(text@[k] == spec_drawn_text(draws@.take(i as int))[k]);
                }
            }
        }
        i = i + 1;
    }
    assert(draws@.take(i as int) =~= draws@);
    text
}

/// The entry point that the drawn number `draw` stands for: one of the eight operations of
/// the system.
pub open spec fn spec_drawn_entry_point(draw: u32) -> TransactionEntryPoint {
    match draw % 8 {
        0 => TransactionEntryPoint::Transfer,
        1 => TransactionEntryPoint::AddBid,
        2 => TransactionEntryPoint::WithdrawBid,
        3 => TransactionEntryPoint::Delegate,
        4 => TransactionEntryPoint::Undelegate,
        5 => TransactionEntryPoint::Redelegate,
        6 => TransactionEntryPoint::ActivateBid,
        _ => TransactionEntryPoint::ChangeBidPublicKey,
    }
}

/// The entry point that the drawn number `draw` stands for.
pub fn drawn_entry_point(draw: u32) -> (entry_point: TransactionEntryPoint)
    ensures
        entry_point == spec_drawn_entry_point(draw),
{
    let rest: u32 = draw % 8;
    match rest {
        0 => TransactionEntryPoint::Transfer,
        1 => TransactionEntryPoint::AddBid,
        2 => TransactionEntryPoint::WithdrawBid,
        3 => TransactionEntryPoint::Delegate,
        4 => TransactionEntryPoint::Undelegate,
        5 => TransactionEntryPoint::Redelegate,
        6 => TransactionEntryPoint::ActivateBid,
        _ => TransactionEntryPoint::ChangeBidPublicKey,
    }
}

/// The scheduling that the drawn numbers stand for: `kind` says whether the transaction runs
/// as it comes, in the era `value` or at the time `value`.
pub open spec fn spec_drawn_scheduling(kind: u32, value: u64) -> TransactionScheduling {
    match kind % 3 {
        0 => TransactionScheduling::Standard,
        1 => TransactionScheduling::FutureEra(EraId(value)),
        _ => TransactionScheduling::FutureTimestamp(Timestamp(value)),
    }
}

/// The scheduling that the drawn numbers stand for.
pub fn drawn_scheduling(kind: u32, value: u64) -> (scheduling: TransactionScheduling)
    ensures
        scheduling == spec_drawn_scheduling(kind, value),
{
    let rest: u32 = kind % 3;
    match rest {
        0 => TransactionScheduling::Standard,
        1 => TransactionScheduling::FutureEra(EraId(value)),
        _ => TransactionScheduling::FutureTimestamp(Timestamp(value)),
    }
}

/// The argument that the drawn numbers stand for: its name is made of the letters of `name`,
/// its value is `value` in eight bytes, the lowest first.
pub fn drawn_arg(name: &Vec<u32>, value: u64) -> (arg: NamedArg)
    ensures
        arg.name@ == spec_drawn_text(name@),
        arg.value@ == spec_u64_to_le_bytes(value),
{
    NamedArg { name: drawn_text(name), value: vstd::bytes::u64_to_le_bytes(value) }
}

} // verus!
