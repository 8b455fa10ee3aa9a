use vstd::prelude::*;

use crate::errors::GraphError;
use crate::graph::{NodeHandle, RelGraph};
use vstd::string::StringExecFns;

verus! {

/// The simplified closeness centrality of a node: exactly the reciprocal of
/// its degree, kept as that degree, so no precision is lost. The score of a
/// node of degree `d` is the rational `1 / d`.
pub struct Centrality {
    degree: usize,
}

/// The score `1 / d` rounded to the nearest hundredth, ties rounding up:
/// `(200 + d) / (2 * d)` is `100 / d + 1 / 2` rounded down.
pub open spec fn rounded_hundredths(d: nat) -> nat
    recommends
        d > 0,
{
    (200 + d) / (2 * d)
}

/// Digit character for a value below ten.
pub open spec fn digit_char(d: nat) -> char
    recommends
        d < 10,
{
    if d == 0 {
        '0'
    } else if d == 1 {
        '1'
    } else if d == 2 {
        '2'
    } else if d == 3 {
        '3'
    } else if d == 4 {
        '4'
    } else if d == 5 {
        '5'
    } else if d == 6 {
        '6'
    } else if d == 7 {
        '7'
    } else if d == 8 {
        '8'
    } else {
        '9'
    }
}

/// The decimal rendering of a score given in hundredths: `"1.00"` for one
/// hundred, else `"0."` followed by the two digits.
pub open spec fn decimal_chars(h: nat) -> Seq<char>
    recommends
        h <= 100,
{
    if h == 100 {
        seq!['1', '.', '0', '0']
    } else {
        seq!['0', '.', digit_char(h / 10), digit_char(h % 10)]
    }
}

fn digit_str(d: usize) -> (s: &'static str)
    requires
        d < 10,
    ensures
        s@ == seq![digit_char(d as nat)],
{
    if d == 0 {
        proof {
            reveal_strlit("0");
            assert("0"@ =~= seq![digit_char(0)]);
        }
        "0"
    } else if d == 1 {
        proof {
            reveal_strlit("1");
            assert("1"@ =~= seq![digit_char(1)]);
        }
        "1"
    } else if d == 2 {
        proof {
            reveal_strlit("2");
            assert("2"@ =~= seq![digit_char(2)]);
        }
        "2"
    } else if d == 3 {
        proof {
            reveal_strlit("3");
            assert("3"@ =~= seq![digit_char(3)]);
        }
        "3"
    } else if d == 4 {
        proof {
            reveal_strlit("4");
            assert("4"@ =~= seq![digit_char(4)]);
        }
        "4"
    } else if d == 5 {
        proof {
            reveal_strlit("5");
            assert("5"@ =~= seq![digit_char(5)]);
        }
        "5"
    } else if d == 6 {
        proof {
            reveal_strlit("6");
            assert("6"@ =~= seq![digit_char(6)]);
        }
        "6"
    } else if d == 7 {
        proof {
            reveal_strlit("7");
            assert("7"@ =~= seq![digit_char(7)]);
        }
        "7"
    } else if d == 8 {
        proof {
            reveal_strlit("8");
            assert("8"@ =~= seq![digit_char(8)]);
        }
        "8"
    } else {
        proof {
            reveal_strlit("9");
            assert("9"@ =~= seq![digit_char(9)]);
        }
        "9"
    }
}

impl Centrality {
    /// The denominator of the score: the node's degree.
    pub closed spec fn denominator(self) -> nat {
        self.degree as nat
    }

    /// A score is well-formed when its degree is positive, so the reciprocal
    /// is defined.
    pub closed spec fn wf(self) -> bool {
        self.degree > 0
    }

    /// The degree whose reciprocal this score is.
    pub fn degree(&self) -> (d: usize)
        ensures
            d == self.denominator(),
    {
        self.degree
    }

    /// The score rounded to the nearest hundredth, ties rounding up, as a
    /// count of hundredths between 0 and 100.
    pub fn hundredths(&self) -> (h: usize)
        requires
            self.wf(),
        ensures
            h == rounded_hundredths(self.denominator()),
            h <= 100,
    {
        let d = self.degree;
        if d > 200 {
            proof {
                assert((200 + d as nat) / (2 * d as nat) == 0) by (nonlinear_arith)
                    requires
                        d > 200,
                ;
            }
            0
        } else {
            let h = (200 + d) / (2 * d);
            proof {
                assert((200 + d as nat) / (2 * d as nat) <= 100) by (nonlinear_arith)
                    requires
                        0 < d <= 200,
                ;
            }
            h
        }
    }

    /// The score rendered with two decimal places, as `"0.50"` or `"1.00"`.
    pub fn decimal_string(&self) -> (s: String)
        requires
            self.wf(),
        ensures
            s@ == decimal_chars(rounded_hundredths(self.denominator())),
    {
        let h = self.hundredths();
        if h == 100 {
            proof {
                reveal_strlit("1.00");
                assert("1.00"@ =~= seq!['1', '.', '0', '0']);
            }
            "1.00".to_owned()
        } else {
            let mut s = String::new();
            proof {
                reveal_strlit("0.");
                assert("0."@ =~= seq!['0', '.']);
            }
            s.append("0.");
            s.append(digit_str(h / 10));
            s.append(digit_str(h % 10));
            proof {
                assert(s@ =~= decimal_chars(rounded_hundredths(self.denominator())));
            }
            s
        }
    }
}

/// The simplified closeness centrality of the node `h` in `graph`: the exact
/// reciprocal of its degree. Fails with `UnknownNode` if `h` is not a node
/// of this graph, and with `DivisionByZero` if its degree is zero — an
/// isolated node's score is reported as an error, never as an infinite or
/// silent sentinel value.
pub fn closeness_centrality(graph: &RelGraph, h: NodeHandle) -> (r: Result<Centrality, GraphError>)
    requires
        graph.wf(),
    ensures
        h@ >= graph.node_ids().len() ==> r == Err::<Centrality, GraphError>(GraphError::UnknownNode),
        h@ < graph.node_ids().len() && graph.spec_degree(h@) == 0 ==> r == Err::<
            Centrality,
            GraphError,
        >(GraphError::DivisionByZero),
        h@ < graph.node_ids().len() && graph.spec_degree(h@) > 0 ==> {
            &&& r matches Ok(c)
            &&& c.wf()
            &&& c.denominator() == graph.spec_degree(h@)
        },
{
    match graph.degree(h) {
        Err(e) => Err(e),
        Ok(d) => if d == 0 {
            Err(GraphError::DivisionByZero)
        } else {
            Ok(Centrality { degree: d })
        },
    }
}

/// Law: `rounded_hundredths` really is nearest-hundredth rounding of the
/// score `1 / d`, ties upward. Written with fractions cleared: for `h` the
/// rounded value, `h - 1/2 <= 100 / d < h + 1/2`.
pub proof fn lemma_hundredths_round_nearest(d: nat)
    requires
        d > 0,
    ensures
        d * (2 * (rounded_hundredths(d) as int) - 1) <= 200,
        200 < d * (2 * (rounded_hundredths(d) as int) + 1),
{
    let h = rounded_hundredths(d) as int;
    let n = (200 + d) as int;
    let m = (2 * d) as int;
    vstd::arithmetic::div_mod::lemma_fundamental_div_mod(n, m);
    let r = n % m;
    assert(n == m * (n / m) + r);
    vstd::arithmetic::div_mod::lemma_mod_bound(n, m);
    assert(d * (2 * h - 1) <= 200 && 200 < d * (2 * h + 1)) by (nonlinear_arith)
        requires
            d > 0,
            n == 200 + d,
            m == 2 * d,
            h == n / m,
            r == n % m,
            n == m * (n / m) + r,
            0 <= r < m,
    ;
}

/// Law: a query's outcome is a function of the graph's contents alone. Two
/// graphs holding the same nodes and the same edges give every node the same
/// degree and the same centrality denominator; together with the contracts
/// of `degree` and `closeness_centrality`, which pin each result to these
/// values, re-running one construction and query sequence yields identical
/// results.
pub proof fn lemma_queries_deterministic(g1: RelGraph, g2: RelGraph, v: nat)
    requires
        g1.node_ids() == g2.node_ids(),
        g1.edge_list() == g2.edge_list(),
    ensures
        g1.spec_degree(v) == g2.spec_degree(v),
        rounded_hundredths(g1.spec_degree(v)) == rounded_hundredths(g2.spec_degree(v)),
{
}

} // verus!
