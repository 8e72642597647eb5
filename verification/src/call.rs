//! A read-only call of a contract's function: what is asked for, and how the answer is shown.

use crate::felt::{hex_text, Felt};
use vstd::prelude::*;
use vstd::string::StringExecFns;

verus! {

/// A call as the caller wrote it: the contract's address, the function's name and the
/// arguments, all still to be resolved to field elements.
#[derive(Debug)]
pub struct Call {
    contract_address: String,
    selector: String,
    calldata: Vec<String>,
}

/// The line that shows one element of the answer: four spaces, the element in quotes, and a
/// comma unless it is the last.
pub open spec fn element_line(element: Felt, last: bool) -> Seq<char> {
    "    \""@ + hex_text(element.bytes()) + if last {
        "\""@
    } else {
        "\","@
    }
}

/// The lines that show an answer: `[]` for an empty one; else `[`, a line for each element
/// and `]`.
pub open spec fn answer_lines(answer: Seq<Felt>) -> Seq<Seq<char>> {
    if answer.len() == 0 {
        seq!["[]"@]
    } else {
        seq!["["@] + Seq::new(
            answer.len(),
            |i: int| element_line(answer[i], i == answer.len() - 1),
        ) + seq!["]"@]
    }
}

/// The elements of all parts, one part after the other.
pub open spec fn joined(parts: Seq<Vec<Felt>>) -> Seq<Felt>
    decreases parts.len(),
{
    if parts.len() == 0 {
        Seq::empty()
    } else {
        joined(parts.drop_last()) + parts.last()@
    }
}

/// The calldata of a call: what each argument was resolved to, in the order of the arguments.
pub fn join_calldata(parts: &Vec<Vec<Felt>>) -> (all: Vec<Felt>)
    ensures
        all@ == joined(parts@),
{
    let mut all: Vec<Felt> = Vec::new();
    let mut i: usize = 0;
    proof {
        assert(parts@.take(0) =~= Seq::<Vec<Felt>>::empty());
    }
    while i < parts.len()
        invariant
            i <= parts.len(),
            all@ == joined(parts@.take(i as int)),
        decreases parts.len() - i,
    {
        let part: &Vec<Felt> = &parts[i];
        let ghost before = all@;
        let mut j: usize = 0;
        while j < part.len()
            invariant
                j <= part.len(),
                all@ == before + part@.take(j as int),
            decreases part.len() - j,
        {
            all.push(part[j]);
            proof {
                assert(part@.take(j + 1) =~= part@.take(j as int).push(part@[j as int]));
            }
            j = j + 1;
        }
        proof {
            assert(part@.take(part.len() as int) =~= part@);
            assert(parts@.take(i + 1).drop_last() =~= parts@.take(i as int));
            assert(parts@.take(i + 1).last() == parts@[i as int]);
        }
        i = i + 1;
    }
    proof {
        assert(parts@.take(parts.len() as int) =~= parts@);
    }
    all
}

/// The texts of the lines.
pub open spec fn texts(lines: Seq<String>) -> Seq<Seq<char>> {
    Seq::new(lines.len(), |i: int| lines[i]@)
}

impl Call {
    /// The call of the named function of the contract at the address, with the arguments.
    pub fn new(contract_address: String, selector: String, calldata: Vec<String>) -> (call: Call)
        ensures
            call.spec_contract_address() == contract_address@,
            call.spec_selector() == selector@,
            call.spec_calldata() == calldata@,
    {
        Call { contract_address, selector, calldata }
    }

    /// The contract's address as written.
    pub closed spec fn spec_contract_address(self) -> Seq<char> {
        self.contract_address@
    }

    /// The function's name as written.
    pub closed spec fn spec_selector(self) -> Seq<char> {
        self.selector@
    }

    /// The arguments as written.
    pub closed spec fn spec_calldata(self) -> Seq<String> {
        self.calldata@
    }

    /// The contract's address as written.
    pub fn contract_address(&self) -> (text: &str)
        ensures
            text@ == self.spec_contract_address(),
    {
        self.contract_address.as_str()
    }

    /// The function's name as written.
    pub fn selector(&self) -> (text: &str)
        ensures
            text@ == self.spec_selector(),
    {
        self.selector.as_str()
    }

    /// The arguments as written.
    pub fn calldata(&self) -> (arguments: &Vec<String>)
        ensures
            arguments@ == self.spec_calldata(),
    {
        &self.calldata
    }

    /// The lines to print for the answer that the network gave to the call.
    pub fn run(&self, answer: &Vec<Felt>) -> (lines: Vec<String>)
        ensures
            texts(lines@) == answer_lines(answer@),
    {
        let mut lines: Vec<String> = Vec::new();
        if answer.len() == 0 {
            lines.push("[]".to_owned());
            assert(texts(lines@) =~= answer_lines(answer@));
            return lines;
        }
        lines.push("[".to_owned());
        let mut i: usize = 0;
        while i < answer.len()
            invariant
                i <= answer.len(),
                answer.len() > 0,
                lines@.len() == i + 1,
                lines@[0]@ == "["@,
                forall|j: int|
                    0 <= j < i ==> (#[trigger] lines@[j + 1])@ == element_line(
                        answer@[j],
                        j == answer.len() - 1,
                    ),
            decreases answer.len() - i,
        {
            let mut line: String = "    \"".to_owned();
            let hex: String = answer[i].to_hex_string();
            line.append(hex.as_str());
            if i == answer.len() - 1 {
                line.append("\"");
            } else {
                line.append("\",");
            }
            lines.push(line);
            i = i + 1;
        }
        lines.push("]".to_owned());
        proof {
            let shown = texts(lines@);
            let wanted = answer_lines(answer@);
            assert(shown.len() == wanted.len());
            assert forall|k: int| 0 <= k < shown.len() implies shown[k] == wanted[k] by {
                if 0 < k < shown.len() - 1 {
                    assert(lines@[(k - 1) + 1]@ == element_line(
                        answer@[k - 1],
                        k - 1 == answer.len() - 1,
                    ));
                }
            }
            assert(shown =~= wanted);
        }
        lines
    }
}

} // verus!
