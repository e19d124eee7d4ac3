//! The flags of a guild member, in words.

use vstd::prelude::*;

verus! {

/// The member has left and joined again.
pub const DID_REJOIN: u32 = 1;

/// The member has gone through the onboarding.
pub const COMPLETED_ONBOARDING: u32 = 2;

/// The member need not be verified.
pub const BYPASSES_VERIFICATION: u32 = 4;

/// The member has begun the onboarding.
pub const STARTED_ONBOARDING: u32 = 8;

/// Whether every bit of `flag` is set in `bits`.
pub open spec fn has_flag(bits: u32, flag: u32) -> bool {
    bits & flag == flag
}

/// The line `name` if `flag` is set in `bits`, and no line if it is not.
pub open spec fn line_if(bits: u32, flag: u32, name: Seq<char>) -> Seq<Seq<char>> {
    if has_flag(bits, flag) {
        seq![name]
    } else {
        Seq::empty()
    }
}

/// The names of the flags that are set in `bits`, in the order in which
/// the flags are listed.
pub open spec fn flag_lines(bits: u32) -> Seq<Seq<char>> {
    line_if(bits, DID_REJOIN, "DID_REJOIN"@) + line_if(bits, COMPLETED_ONBOARDING, "COMPLETED_ONBOARDING"@) + line_if(
        bits,
        BYPASSES_VERIFICATION,
        "BYPASSES_VERIFICATION"@,
    ) + line_if(bits, STARTED_ONBOARDING, "STARTED_ONBOARDING"@)
}

/// The lines, each but the last followed by a line break.
pub open spec fn joined(lines: Seq<Seq<char>>) -> Seq<char>
    decreases lines.len(),
{
    if lines.len() == 0 {
        Seq::empty()
    } else if lines.len() == 1 {
        lines[0]
    } else {
        joined(lines.drop_last()) + "\n"@ + lines.last()
    }
}

fn push_if(lines: &mut Vec<&'static str>, bits: u32, flag: u32, name: &'static str)
    ensures
        final(lines)@.map_values(|l: &'static str| l@) == old(lines)@.map_values(|l: &'static str| l@) + line_if(
            bits,
            flag,
            name@,
        ),
{
    if bits & flag == flag {
        lines.push(name);
    }
    assert(lines@.map_values(|l: &'static str| l@) =~= old(lines)@.map_values(|l: &'static str| l@) + line_if(
        bits,
        flag,
        name@,
    ));
}

/// Joins the lines with line breaks.
pub fn join_lines(lines: &Vec<&'static str>) -> (text: String)
    ensures
        text@ == joined(lines@.map_values(|l: &'static str| l@)),
{
    let ghost all = lines@.map_values(|l: &'static str| l@);
    let mut text = String::new();
    let mut i: usize = 0;
    while i < lines.len()
        invariant
            i <= lines.len(),
            all == lines@.map_values(|l: &'static str| l@),
            text@ == joined(all.take(i as int)),
        decreases lines.len() - i,
    {
        proof {
            assert(all.take(i + 1).drop_last() =~= all.take(i as int));
            assert(all.take(i + 1).last() == lines@[i as int]@);
        }
        if i > 0 {
            text.append("\n");
        }
        text.append(lines[i]);
        proof {
            if i == 0 {
                assert(text@ =~= all.take(1)[0]);
            }
        }
        i += 1;
    }
    proof {
        assert(all.take(i as int) =~= all);
    }
    text
}

/// The names of the flags that are set in `bits`, one on a line, or nothing
/// where none is set.
pub fn get_flags_str(bits: u32) -> (r: Option<String>)
    ensures
        match r {
            Some(text) => flag_lines(bits).len() > 0 && text@ == joined(flag_lines(bits)),
            None => flag_lines(bits).len() == 0,
        },
{
    let mut lines: Vec<&'static str> = Vec::new();
    assert(lines@.map_values(|l: &'static str| l@) =~= Seq::<Seq<char>>::empty());
    push_if(&mut lines, bits, DID_REJOIN, "DID_REJOIN");
    push_if(&mut lines, bits, COMPLETED_ONBOARDING, "COMPLETED_ONBOARDING");
    push_if(&mut lines, bits, BYPASSES_VERIFICATION, "BYPASSES_VERIFICATION");
    push_if(&mut lines, bits, STARTED_ONBOARDING, "STARTED_ONBOARDING");
    assert(lines@.map_values(|l: &'static str| l@) =~= flag_lines(bits));
    if lines.len() == 0 {
        None
    } else {
        Some(join_lines(&lines))
    }
}

} // verus!
