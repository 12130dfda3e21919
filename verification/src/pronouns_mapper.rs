use vstd::prelude::*;
use vstd::string::StringExecFns;
use crate::text;

verus! {

/// The subjective pronouns the card can show, in table order.
pub open spec fn subjectives() -> Seq<Seq<char>> {
    seq!["she"@, "he"@, "they"@, "it"@, "one"@, "ae"@, "ey"@, "fae"@, "xe"@, "ze"@]
}

/// The objective pronouns the card can show, in table order.
pub open spec fn objectives() -> Seq<Seq<char>> {
    seq![
        "her"@,
        "him"@,
        "them"@,
        "its"@,
        "one's"@,
        "aer"@,
        "em"@,
        "faer"@,
        "xem"@,
        "hir"@,
        "zir"@,
    ]
}

/// The query key of the `i`th subjective/objective combination, written
/// `she-her` style.
pub open spec fn pronoun_key(i: int) -> Seq<char> {
    subjectives()[i / 11] + "-"@ + objectives()[i % 11]
}

/// The display tag of the `i`th combination, written `she/her` style.
pub open spec fn pronoun_tag(i: int) -> Seq<char> {
    subjectives()[i / 11] + "/"@ + objectives()[i % 11]
}

/// The `k`th subjective pronoun.
fn subjective_str(k: usize) -> (r: &'static str)
    requires
        k < 10,
    ensures
        r@ == subjectives()[k as int],
{
    match k {
        0 => "she",
        1 => "he",
        2 => "they",
        3 => "it",
        4 => "one",
        5 => "ae",
        6 => "ey",
        7 => "fae",
        8 => "xe",
        _ => "ze",
    }
}

/// The `k`th objective pronoun.
fn objective_str(k: usize) -> (r: &'static str)
    requires
        k < 11,
    ensures
        r@ == objectives()[k as int],
{
    match k {
        0 => "her",
        1 => "him",
        2 => "them",
        3 => "its",
        4 => "one's",
        5 => "aer",
        6 => "em",
        7 => "faer",
        8 => "xem",
        9 => "hir",
        _ => "zir",
    }
}

/// Maps a pronouns query such as `she-her` to the tag the card shows,
/// `she/her`: one entry for every subjective/objective combination.
pub struct PronounsMapper {
    pub pairs: Vec<(String, String)>,
}

impl PronounsMapper {
    /// The mapper holds exactly the 110 combinations, keys and tags in
    /// table order.
    pub open spec fn wf(&self) -> bool {
        &&& self.pairs@.len() == 110
        &&& forall|i: int|
            0 <= i < 110 ==> (#[trigger] self.pairs@[i]).0@ == pronoun_key(i)
                && self.pairs@[i].1@ == pronoun_tag(i)
    }

    /// Builds the full combination table.
    pub fn new() -> (r: Self)
        ensures
            r.wf(),
    {
        let mut pairs: Vec<(String, String)> = Vec::new();
        let mut si: usize = 0;
        while si < 10
            invariant
                0 <= si <= 10,
                pairs@.len() == si * 11,
                forall|i: int|
                    0 <= i < pairs@.len() ==> (#[trigger] pairs@[i]).0@ == pronoun_key(i)
                        && pairs@[i].1@ == pronoun_tag(i),
            decreases 10 - si,
        {
            let mut oj: usize = 0;
            while oj < 11
                invariant
                    0 <= si < 10,
                    0 <= oj <= 11,
                    pairs@.len() == si * 11 + oj,
                    forall|i: int|
                        0 <= i < pairs@.len() ==> (#[trigger] pairs@[i]).0@ == pronoun_key(i)
                            && pairs@[i].1@ == pronoun_tag(i),
                decreases 11 - oj,
            {
                let subjective = subjective_str(si);
                let objective = objective_str(oj);
                let k = subjective.to_owned().concat("-").concat(objective);
                let v = subjective.to_owned().concat("/").concat(objective);
                proof {
                    let i = si * 11 + oj;
                    assert(i / 11 == si && i % 11 == oj) by (nonlinear_arith)
                        requires
                            0 <= si < 10,
                            0 <= oj < 11,
                            i == si * 11 + oj,
                    ;
                    assert(k@ == pronoun_key(i as int));
                    assert(v@ == pronoun_tag(i as int));
                }
                pairs.push((k, v));
                oj += 1;
            }
            si += 1;
        }
        PronounsMapper { pairs }
    }

    /// Looks a pronouns query up in the combination table: the matching
    /// tag, or absence when the query is no listed combination.
    pub fn to_pronouns_tag(&self, pronouns_query: &str) -> (r: Option<String>)
        requires
            self.wf(),
        ensures
            match r {
                Some(v) => exists|i: int|
                    0 <= i < 110 && pronoun_key(i) == pronouns_query@ && v@ == pronoun_tag(i),
                None => forall|i: int| 0 <= i < 110 ==> pronoun_key(i) != pronouns_query@,
            },
    {
        let n = self.pairs.len();
        let mut i: usize = 0;
        while i < n
            invariant
                self.wf(),
                n == 110,
                0 <= i <= n,
                forall|j: int| 0 <= j < i ==> pronoun_key(j) != pronouns_query@,
            decreases n - i,
        {
            if text::str_eq(self.pairs[i].0.as_str(), pronouns_query) {
                let tag = self.pairs[i].1.clone();
                return Some(tag);
            }
            i += 1;
        }
        None
    }
}

} // verus!
