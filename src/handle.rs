use vstd::prelude::*;
use vstd::string::StringExecFns;

verus! {

/// Identity of a stored value: the slot it lives in and how many times that
/// slot had been freed when the handle was made. Index 0 is the null handle.
#[derive(Copy, Clone, Debug, PartialEq, Eq, Structural)]
pub struct Handle {
    pub index: usize,
    pub generation: usize,
}

impl Default for Handle {
    /// The null handle: index 0, generation 0.
    fn default() -> (r: Handle)
        ensures
            r == (Handle { index: 0, generation: 0 }),
    {
        Handle { index: 0, generation: 0 }
    }
}

/// Decimal digits of `n`, most significant first, with no leading zeros.
pub open spec fn decimal_text(n: nat) -> Seq<char>
    decreases n,
{
    if n < 10 {
        seq![digit_char(n)]
    } else {
        decimal_text(n / 10).push(digit_char(n % 10))
    }
}

pub open spec fn digit_char(d: nat) -> char {
    if d == 0 { '0' } else if d == 1 { '1' } else if d == 2 { '2' } else if d == 3 { '3' }
    else if d == 4 { '4' } else if d == 5 { '5' } else if d == 6 { '6' } else if d == 7 { '7' }
    else if d == 8 { '8' } else { '9' }
}

/// Relies on `usize::to_string` (through `Display`): the plain decimal form.
#[verifier::external_body]
fn usize_text(n: usize) -> (r: String)
    ensures
        r@ == decimal_text(n as nat),
{
    n.to_string()
}

impl Handle {
    pub open spec fn rendered(&self) -> Seq<char> {
        "[index:"@ + decimal_text(self.index as nat) + ",gen:"@ + decimal_text(
            self.generation as nat,
        ) + "]"@
    }

    /// Renders the handle as `[index:I,gen:G]`.
    pub fn to_string(&self) -> (r: String)
        ensures
            r@ == self.rendered(),
    {
        let index = usize_text(self.index);
        let generation = usize_text(self.generation);
        let mut r = String::from_str("[index:");
        r.append(index.as_str());
        r.append(",gen:");
        r.append(generation.as_str());
        r.append("]");
        r
    }
}

} // verus!
