//! The active-region statistics slot and the diagnostic line it yields when
//! a trust region closes.
use vstd::prelude::*;
use vstd::string::StringExecFns;

verus! {

broadcast use vstd::string::group_string_axioms;

/// The syntactic shape a trust region takes.
#[derive(Clone, Copy, PartialEq, Eq, Structural, Debug)]
pub enum BlockType {
    /// An inline block expression.
    Inner,
    /// A free-standing function.
    Function,
    /// A method in an implementation block.
    Method,
}

/// The word a diagnostic line uses for each region shape.
pub open spec fn block_type_name(bt: BlockType) -> Seq<char> {
    match bt {
        BlockType::Inner => "Inner"@,
        BlockType::Function => "Function"@,
        BlockType::Method => "Method"@,
    }
}

/// The decimal digit character for `d < 10`.
pub open spec fn digit_char(d: nat) -> char {
    if d == 0 {
        '0'
    } else if d == 1 {
        '1'
    } else if d == 2 {
        '2'
    } else if d == 3 {
        '3'
    } else if d == 4 {
        '4'
    } else if d == 5 {
        '5'
    } else if d == 6 {
        '6'
    } else if d == 7 {
        '7'
    } else if d == 8 {
        '8'
    } else {
        '9'
    }
}

/// The usual decimal rendering of a number: most significant digit first,
/// no leading zeros except for the number zero itself.
pub open spec fn dec_rep(n: nat) -> Seq<char>
    decreases n,
{
    if n < 10 {
        seq![digit_char(n)]
    } else {
        dec_rep(n / 10).push(digit_char(n % 10))
    }
}

fn digit_str(d: u64) -> (s: &'static str)
    requires
        d < 10,
    ensures
        s@ == seq![digit_char(d as nat)],
{
    let s: &'static str = match d {
        0 => "0",
        1 => "1",
        2 => "2",
        3 => "3",
        4 => "4",
        5 => "5",
        6 => "6",
        7 => "7",
        8 => "8",
        _ => "9",
    };
    proof {
        reveal_strlit("0");
        reveal_strlit("1");
        reveal_strlit("2");
        reveal_strlit("3");
        reveal_strlit("4");
        reveal_strlit("5");
        reveal_strlit("6");
        reveal_strlit("7");
        reveal_strlit("8");
        reveal_strlit("9");
        assert(s@ =~= seq![digit_char(d as nat)]);
    }
    s
}

/// Render a number in decimal.
pub fn u64_to_dec(n: u64) -> (s: String)
    ensures
        s@ == dec_rep(n as nat),
    decreases n,
{
    if n < 10 {
        let mut s = String::new();
        s.append(digit_str(n));
        proof {
            assert(s@ =~= dec_rep(n as nat));
        }
        s
    } else {
        let mut s = u64_to_dec(n / 10);
        s.append(digit_str(n % 10));
        proof {
            assert(s@ =~= dec_rep(n as nat));
        }
        s
    }
}

/// The one live statistics record for the region being traversed.
///
/// There is a single slot, overwritten on every region entry; the numbers it
/// reports are therefore accurate for the innermost, currently-closing
/// region, and an outer region's line describes only the span after its last
/// nested region closed.
pub struct UnsafeStat {
    /// The whole-file count of inside-bucket expressions at region entry.
    pub expr_prev: u64,
    /// The same count at region exit.
    pub expr_curr: u64,
    /// Number of direct statements of the region, recorded at entry.
    pub stmt: usize,
    /// The region's shape.
    pub block_type: BlockType,
    /// Rendered source text of the region.
    pub block: String,
    /// A raw-pointer dereference was seen while a region was open.
    pub has_deref: bool,
}

/// Mathematical model of an [`UnsafeStat`].
#[verifier::ext_equal]
pub ghost struct StatModel {
    pub expr_prev: nat,
    pub expr_curr: nat,
    pub stmt: nat,
    pub block_type: BlockType,
    pub block: Seq<char>,
    pub has_deref: bool,
}

impl View for UnsafeStat {
    type V = StatModel;

    open spec fn view(&self) -> StatModel {
        StatModel {
            expr_prev: self.expr_prev as nat,
            expr_curr: self.expr_curr as nat,
            stmt: self.stmt as nat,
            block_type: self.block_type,
            block: self.block@,
            has_deref: self.has_deref,
        }
    }
}

/// The diagnostic line a statistics record yields:
/// `<source> ~ <shape> ~ <expression delta> ~ <statement count>`, with
/// ` ~ Dereference Operation` appended when the dereference flag is set.
pub open spec fn line_of(st: StatModel) -> Seq<char> {
    st.block + " ~ "@ + block_type_name(st.block_type) + " ~ "@ + dec_rep(
        (st.expr_curr - st.expr_prev) as nat,
    ) + " ~ "@ + dec_rep(st.stmt) + (if st.has_deref {
        " ~ Dereference Operation"@
    } else {
        Seq::<char>::empty()
    })
}

impl UnsafeStat {
    /// Produce the diagnostic line for the closing region and clear the
    /// dereference flag; every other field is left as it stands.
    pub fn stat(&mut self) -> (line: String)
        requires
            old(self).expr_prev <= old(self).expr_curr,
        ensures
            line@ == line_of(old(self)@),
            final(self)@ == (StatModel { has_deref: false, ..old(self)@ }),
    {
        let mut line = String::new();
        line.append(self.block.as_str());
        line.append(" ~ ");
        line.append(match self.block_type {
            BlockType::Inner => "Inner",
            BlockType::Function => "Function",
            BlockType::Method => "Method",
        });
        line.append(" ~ ");
        let delta = u64_to_dec(self.expr_curr - self.expr_prev);
        line.append(delta.as_str());
        line.append(" ~ ");
        let stmt = u64_to_dec(self.stmt as u64);
        line.append(stmt.as_str());
        if self.has_deref {
            line.append(" ~ Dereference Operation");
            self.has_deref = false;
        }
        proof {
            assert(line@ =~= line_of(old(self)@));
            assert(final(self)@ =~= (StatModel { has_deref: false, ..old(self)@ }));
        }
        line
    }
}

} // verus!
