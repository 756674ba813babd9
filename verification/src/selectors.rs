//! Label selector expressions.

use vstd::prelude::*;
use vstd::string::StringExecFns;

verus! {

/// The selector text for a list of label pairs: `key=value` terms joined
/// with commas, in list order.
pub open spec fn selector_text(pairs: Seq<(Seq<char>, Seq<char>)>) -> Seq<char>
    decreases pairs.len(),
{
    if pairs.len() == 0 {
        Seq::empty()
    } else if pairs.len() == 1 {
        pairs[0].0 + "="@ + pairs[0].1
    } else {
        selector_text(pairs.drop_last()) + ","@ + pairs.last().0 + "="@ + pairs.last().1
    }
}

/// Convert to a valid selector expression.
pub trait ToSelector {
    /// The label pairs the selector is built from, in order.
    spec fn label_pairs(&self) -> Seq<(Seq<char>, Seq<char>)>;

    fn to_selector(&self) -> (s: String)
        ensures
            s@ == selector_text(self.label_pairs()),
    ;
}

/// For a list of labels, an "and" expression over all key/value pairs.
impl ToSelector for Vec<(String, String)> {
    open spec fn label_pairs(&self) -> Seq<(Seq<char>, Seq<char>)> {
        self@.map_values(|p: (String, String)| (p.0@, p.1@))
    }

    fn to_selector(&self) -> (s: String) {
        let ghost pairs = self.label_pairs();
        let mut s = String::new();
        let mut i: usize = 0;
        #[verifier::loop_isolation(false)]
        while i < self.len()
            invariant
                i <= self@.len(),
                s@ == selector_text(pairs.subrange(0, i as int)),
            decreases self@.len() - i,
        {
            if i > 0 {
                s.append(",");
            }
            s.append(self[i].0.as_str());
            s.append("=");
            s.append(self[i].1.as_str());
            proof {
                let prefix = pairs.subrange(0, i as int);
                let extended = pairs.subrange(0, i + 1 as int);
                assert(extended.drop_last() =~= prefix);
                assert(extended.last() == pairs[i as int]);
                if i == 0 {
                    assert(s@ =~= selector_text(extended));
                } else {
                    assert(s@ =~= selector_text(extended));
                }
            }
            i += 1;
        }
        proof {
            assert(pairs.subrange(0, pairs.len() as int) =~= pairs);
        }
        s
    }
}

} // verus!
