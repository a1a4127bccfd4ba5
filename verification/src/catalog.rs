use vstd::prelude::*;

verus! {

/// One test case of the catalog: the program that is fed to the submitted
/// compiler, the input of the emulated run, the output that is expected of
/// it, and the score that a matching run earns.
#[derive(Clone, Debug, PartialEq, Eq)]
pub struct TestCase {
    pub name: String,
    pub source: String,
    pub input_file: String,
    pub output_file: String,
    pub score: usize,
}

/// A test case as plain values.
pub struct TestCaseView {
    pub name: Seq<char>,
    pub source: Seq<char>,
    pub input_file: Seq<char>,
    pub output_file: Seq<char>,
    pub score: nat,
}

impl View for TestCase {
    type V = TestCaseView;

    open spec fn view(&self) -> TestCaseView {
        TestCaseView {
            name: self.name@,
            source: self.source@,
            input_file: self.input_file@,
            output_file: self.output_file@,
            score: self.score as nat,
        }
    }
}

impl DeepView for TestCase {
    type V = TestCaseView;

    open spec fn deep_view(&self) -> TestCaseView {
        self@
    }
}

/// The sum of the scores of the first `n` cases.
pub open spec fn weight_upto(cases: Seq<TestCaseView>, n: nat) -> nat
    decreases n,
{
    if n == 0 || n > cases.len() {
        0
    } else {
        weight_upto(cases, (n - 1) as nat) + cases[n - 1].score
    }
}

/// The sum of the scores of all cases.
pub open spec fn total_weight(cases: Seq<TestCaseView>) -> nat {
    weight_upto(cases, cases.len())
}

/// The score earned by a run of verdicts, the i-th verdict being that of the
/// i-th case: the sum of the scores of the cases that passed.
pub open spec fn earned(cases: Seq<TestCaseView>, verdicts: Seq<bool>) -> nat
    decreases verdicts.len(),
{
    if verdicts.len() == 0 {
        0
    } else if verdicts.last() && verdicts.len() <= cases.len() {
        earned(cases, verdicts.drop_last()) + cases[verdicts.len() - 1].score
    } else {
        earned(cases, verdicts.drop_last())
    }
}

/// A longer prefix of the catalog weighs at least as much as a shorter one.
pub proof fn lemma_weight_monotonic(cases: Seq<TestCaseView>, m: nat, n: nat)
    requires
        m <= n <= cases.len(),
    ensures
        weight_upto(cases, m) <= weight_upto(cases, n),
    decreases n,
{
    if m < n {
        lemma_weight_monotonic(cases, m, (n - 1) as nat);
    }
}

/// What a run of verdicts earns is at most the weight of the cases judged.
pub proof fn lemma_earned_bounded(cases: Seq<TestCaseView>, verdicts: Seq<bool>)
    requires
        verdicts.len() <= cases.len(),
    ensures
        earned(cases, verdicts) <= weight_upto(cases, verdicts.len()),
    decreases verdicts.len(),
{
    if verdicts.len() > 0 {
        lemma_earned_bounded(cases, verdicts.drop_last());
    }
}

/// One more verdict adds the score of its case if the case passed, and
/// nothing if it did not.
pub proof fn lemma_earned_push(cases: Seq<TestCaseView>, verdicts: Seq<bool>, passed: bool)
    requires
        verdicts.len() < cases.len(),
    ensures
        earned(cases, verdicts.push(passed)) == earned(cases, verdicts) + if passed {
            cases[verdicts.len() as int].score
        } else {
            0
        },
{
    assert(verdicts.push(passed).drop_last() =~= verdicts);
}

/// A run in which no case passed earns nothing, and one in which every case
/// passed earns the weight of the cases judged.
pub proof fn lemma_earned_extremes(cases: Seq<TestCaseView>, verdicts: Seq<bool>)
    requires
        verdicts.len() <= cases.len(),
    ensures
        (forall|i: int| 0 <= i < verdicts.len() ==> !verdicts[i]) ==> earned(cases, verdicts) == 0,
        (forall|i: int| 0 <= i < verdicts.len() ==> verdicts[i]) ==> earned(cases, verdicts)
            == weight_upto(cases, verdicts.len()),
    decreases verdicts.len(),
{
    if verdicts.len() > 0 {
        lemma_earned_extremes(cases, verdicts.drop_last());
    }
}

/// The ordered catalog of test cases that every session runs. It is fixed
/// once built, and the scores of its cases add up without overflow.
#[derive(Debug)]
pub struct TestCatalog {
    cases: Vec<TestCase>,
    total: usize,
}

impl View for TestCatalog {
    type V = Seq<TestCaseView>;

    closed spec fn view(&self) -> Seq<TestCaseView> {
        self.cases.deep_view()
    }
}

impl TestCatalog {
    #[verifier::type_invariant]
    spec fn sound(self) -> bool {
        self.total == total_weight(self.cases.deep_view())
    }

    /// Builds the catalog, unless the scores of the cases add up to more
    /// than a session can count.
    pub fn new(cases: Vec<TestCase>) -> (catalog: Option<TestCatalog>)
        ensures
            catalog is Some <==> total_weight(cases.deep_view()) <= usize::MAX,
            catalog matches Some(c) ==> c@ == cases.deep_view(),
    {
        let ghost all = cases.deep_view();
        let mut total: usize = 0;
        let mut i: usize = 0;
        while i < cases.len()
            invariant
                all == cases.deep_view(),
                i <= cases.len(),
                total == weight_upto(all, i as nat),
            decreases cases.len() - i,
        {
            assert(all[i as int].score == cases[i as int].score);
            match total.checked_add(cases[i].score) {
                Some(sum) => {
                    total = sum;
                },
                None => {
                    proof {
                        lemma_weight_monotonic(all, (i + 1) as nat, all.len());
                    }
                    return None;
                },
            }
            i = i + 1;
        }
        Some(TestCatalog { cases, total })
    }

    /// The number of cases.
    pub fn len(&self) -> (n: usize)
        ensures
            n == self@.len(),
    {
        self.cases.len()
    }

    /// The case at position `index`.
    pub fn case(&self, index: usize) -> (case: &TestCase)
        requires
            index < self@.len(),
        ensures
            case@ == self@[index as int],
    {
        &self.cases[index]
    }

    /// The sum of the scores of all cases.
    pub fn total(&self) -> (total: usize)
        ensures
            total == total_weight(self@),
    {
        proof {
            use_type_invariant(self);
        }
        self.total
    }
}

} // verus!
