//! The fuzzy finder: ranks the task names against a query string. The
//! per-name score comes from the fuzzy-matcher crate behind a trusted
//! wrapper; dropping non-matching names, ordering by score with original
//! order kept among ties, and the cursor over the results are all proved.

use fuzzy_matcher::FuzzyMatcher;
use vstd::prelude::*;

use crate::cursor::{BoundedState, StateWrap};
use crate::todo::Todo;

verus! {

/// What the finder asks the controller to do.
pub enum SkimmerAction {
    Skim,
    ReportSelection(usize),
}

/// A scored fuzzy match of the query against one todo's name.
#[derive(Clone, Debug)]
pub struct SkimMatch {
    pub text: String,
    pub position: usize,
    pub indices: Vec<usize>,
    score: i64,
}

/// The mathematical shape of one match: the name's characters, the index
/// the todo has in the collection, the matched character positions and the
/// score.
pub ghost struct MatchModel {
    pub text: Seq<char>,
    pub position: int,
    pub indices: Seq<usize>,
    pub score: i64,
}

impl View for SkimMatch {
    type V = MatchModel;

    closed spec fn view(&self) -> MatchModel {
        MatchModel {
            text: self.text@,
            position: self.position as int,
            indices: self.indices@,
            score: self.score,
        }
    }
}

impl SkimMatch {
    pub fn new(text: String, position: usize, indices: Vec<usize>, score: i64) -> (r: Self)
        ensures
            r@ == (MatchModel {
                text: text@,
                position: position as int,
                indices: indices@,
                score,
            }),
    {
        SkimMatch { text, position, indices, score }
    }
}

/// What the fuzzy matcher returns for a name and a query: a score and the
/// matched positions when the query is a fuzzy subsequence of the name,
/// nothing otherwise. A fixed function of the two strings.
pub uninterp spec fn skim_match(text: Seq<char>, query: Seq<char>) -> Option<(i64, Seq<usize>)>;

/// The returned score and positions, as spec values.
pub open spec fn match_view(r: Option<(i64, Vec<usize>)>) -> Option<(i64, Seq<usize>)> {
    match r {
        Some(sv) => Some((sv.0, sv.1@)),
        None => None,
    }
}

/// Relies on fuzzy_matcher's SkimMatcherV2 in its default configuration:
/// fuzzy_indices scores a fuzzy subsequence match of `query` in `text`,
/// depending on the two strings alone, and its source returns score 0 and
/// no positions for an empty query, whatever the text.
#[verifier::external_body]
fn fuzzy_indices(text: &str, query: &str) -> (r: Option<(i64, Vec<usize>)>)
    ensures
        match_view(r) == skim_match(text@, query@),
        query@.len() == 0 ==> match_view(r) == Some((0i64, Seq::<usize>::empty())),
{
    fuzzy_matcher::skim::SkimMatcherV2::default().fuzzy_indices(text, query)
}

/// The names of the todos, in collection order.
pub open spec fn spec_names(todos: Seq<Todo>) -> Seq<Seq<char>> {
    todos.map_values(|t: Todo| t.name@)
}

/// The matches among `names[0..n]`, in original index order.
pub open spec fn spec_matches_upto(names: Seq<Seq<char>>, query: Seq<char>, n: int) -> Seq<
    MatchModel,
>
    decreases n,
{
    if n <= 0 {
        Seq::empty()
    } else {
        let prev = spec_matches_upto(names, query, n - 1);
        match skim_match(names[n - 1], query) {
            Some(sv) => prev.push(
                MatchModel {
                    text: names[n - 1],
                    position: n - 1,
                    indices: sv.1,
                    score: sv.0,
                },
            ),
            None => prev,
        }
    }
}

/// Every match of the query among the names, in original index order.
pub open spec fn spec_matches(names: Seq<Seq<char>>, query: Seq<char>) -> Seq<MatchModel> {
    spec_matches_upto(names, query, names.len() as int)
}

/// `m` placed into the score-descending sequence `s`, in front of the
/// first element whose score does not exceed `m`'s: later elements never
/// overtake earlier ones of equal score.
pub open spec fn insert_desc(m: MatchModel, s: Seq<MatchModel>) -> Seq<MatchModel>
    decreases s.len(),
{
    if s.len() == 0 {
        seq![m]
    } else if m.score >= s[0].score {
        seq![m] + s
    } else {
        seq![s[0]] + insert_desc(m, s.drop_first())
    }
}

/// Stable sort by score, highest first: insertion from the front, so an
/// earlier element is placed before later elements of the same score.
pub open spec fn sort_desc(s: Seq<MatchModel>) -> Seq<MatchModel>
    decreases s.len(),
{
    if s.len() == 0 {
        Seq::empty()
    } else {
        insert_desc(s[0], sort_desc(s.drop_first()))
    }
}

/// What ranking a query against a collection yields: the matching names,
/// sorted by score descending, original index order kept among ties.
pub open spec fn spec_rank(names: Seq<Seq<char>>, query: Seq<char>) -> Seq<MatchModel> {
    sort_desc(spec_matches(names, query))
}

/// Ranking is a function of the names and the query alone: any two results
/// meeting the ranking contract are the same sequence.
pub proof fn lemma_rank_deterministic(
    names: Seq<Seq<char>>,
    query: Seq<char>,
    r1: Seq<MatchModel>,
    r2: Seq<MatchModel>,
)
    requires
        r1 == spec_rank(names, query),
        r2 == spec_rank(names, query),
    ensures
        r1 == r2,
{
}

/// Scores never rise along the sequence.
pub open spec fn spec_sorted_desc(s: Seq<MatchModel>) -> bool {
    forall|i: int, j: int| 0 <= i < j < s.len() ==> s[i].score >= s[j].score
}

/// Whatever `insert_desc` puts in comes from `m` or from `s`, and the
/// result stays score-descending when `s` was.
proof fn lemma_insert_desc_sorted(m: MatchModel, s: Seq<MatchModel>)
    requires
        spec_sorted_desc(s),
    ensures
        spec_sorted_desc(insert_desc(m, s)),
        insert_desc(m, s).len() == s.len() + 1,
        forall|k: int|
            0 <= k < insert_desc(m, s).len() ==> insert_desc(m, s)[k] == m || (exists|j: int|
                0 <= j < s.len() && s[j] == #[trigger] insert_desc(m, s)[k]),
    decreases s.len(),
{
    if s.len() == 0 {
    } else if m.score >= s[0].score {
    } else {
        let rest = s.drop_first();
        assert(forall|i: int, j: int|
            0 <= i < j < rest.len() ==> rest[i].score >= rest[j].score);
        lemma_insert_desc_sorted(m, rest);
        let r = insert_desc(m, s);
        assert(r == seq![s[0]] + insert_desc(m, rest));
        assert forall|k: int| 1 <= k < r.len() implies s[0].score >= r[k].score by {
            assert(r[k] == insert_desc(m, rest)[k - 1]);
            if insert_desc(m, rest)[k - 1] == m {
            } else {
                let j = choose|j: int|
                    0 <= j < rest.len() && rest[j] == insert_desc(m, rest)[k - 1];
                assert(s[j + 1] == rest[j]);
            }
        }
        assert forall|k: int|
            0 <= k < r.len() implies r[k] == m || (exists|j: int|
            0 <= j < s.len() && s[j] == r[k]) by {
            if k == 0 {
                assert(s[0] == r[0]);
            } else if insert_desc(m, rest)[k - 1] == m {
            } else {
                let j = choose|j: int|
                    0 <= j < rest.len() && rest[j] == insert_desc(m, rest)[k - 1];
                assert(s[j + 1] == r[k]);
            }
        }
    }
}

proof fn lemma_sort_desc_sorted(s: Seq<MatchModel>)
    ensures
        spec_sorted_desc(sort_desc(s)),
        sort_desc(s).len() == s.len(),
    decreases s.len(),
{
    if s.len() > 0 {
        lemma_sort_desc_sorted(s.drop_first());
        lemma_insert_desc_sorted(s[0], sort_desc(s.drop_first()));
    }
}

/// The ranking's order law: the result is sorted by score, highest
/// first, and holds exactly one entry per matching candidate.
pub proof fn lemma_rank_sorted(names: Seq<Seq<char>>, query: Seq<char>)
    ensures
        spec_sorted_desc(spec_rank(names, query)),
        spec_rank(names, query).len() == spec_matches(names, query).len(),
{
    lemma_sort_desc_sorted(spec_matches(names, query));
}

/// Inserting into a sequence of equal scores puts the element at the
/// front; sorting such a sequence therefore leaves it as it is.
proof fn lemma_sort_desc_const_score(s: Seq<MatchModel>, sc: i64)
    requires
        forall|i: int| 0 <= i < s.len() ==> s[i].score == sc,
    ensures
        sort_desc(s) == s,
    decreases s.len(),
{
    if s.len() > 0 {
        assert(forall|i: int| 0 <= i < s.drop_first().len() ==> s.drop_first()[i].score == sc);
        lemma_sort_desc_const_score(s.drop_first(), sc);
        if s.drop_first().len() == 0 {
            assert(insert_desc(s[0], s.drop_first()) =~= s);
        } else {
            assert(s[0].score >= s.drop_first()[0].score);
            assert(insert_desc(s[0], s.drop_first()) =~= s);
        }
    } else {
        assert(sort_desc(s) =~= s);
    }
}

/// When every name matches with score 0 and no positions — as with an
/// empty query — the match list holds one entry per name, in index order.
proof fn lemma_matches_all_trivial(names: Seq<Seq<char>>, query: Seq<char>, n: int)
    requires
        0 <= n <= names.len(),
        forall|j: int| 0 <= j < n ==> skim_match(names[j], query) == Some(
            (0i64, Seq::<usize>::empty()),
        ),
    ensures
        spec_matches_upto(names, query, n).len() == n,
        forall|j: int| 0 <= j < n ==> spec_matches_upto(names, query, n)[j] == (MatchModel {
            text: names[j],
            position: j,
            indices: Seq::<usize>::empty(),
            score: 0i64,
        }),
    decreases n,
{
    if n > 0 {
        lemma_matches_all_trivial(names, query, n - 1);
    }
}

/// `rank("", C)` keeps every candidate, in original index order, with
/// score 0: stated over the ranking function itself.
pub proof fn lemma_rank_empty_query(names: Seq<Seq<char>>, query: Seq<char>)
    requires
        query.len() == 0,
        forall|j: int| 0 <= j < names.len() ==> skim_match(names[j], query) == Some(
            (0i64, Seq::<usize>::empty()),
        ),
    ensures
        spec_rank(names, query).len() == names.len(),
        forall|j: int| 0 <= j < names.len() ==> spec_rank(names, query)[j] == (MatchModel {
            text: names[j],
            position: j,
            indices: Seq::<usize>::empty(),
            score: 0i64,
        }),
{
    lemma_matches_all_trivial(names, query, names.len() as int);
    let ms = spec_matches(names, query);
    assert(forall|i: int| 0 <= i < ms.len() ==> ms[i].score == 0i64);
    lemma_sort_desc_const_score(ms, 0i64);
}

/// `insert_desc` written out at the split point: when everything before
/// `k` scores strictly higher and the element at `k` (if any) does not,
/// inserting lands exactly at `k`.
proof fn lemma_insert_desc_at(m: MatchModel, s: Seq<MatchModel>, k: int)
    requires
        0 <= k <= s.len(),
        forall|j: int| 0 <= j < k ==> s[j].score > m.score,
        k < s.len() ==> m.score >= s[k].score,
    ensures
        insert_desc(m, s) == s.subrange(0, k) + seq![m] + s.subrange(k, s.len() as int),
    decreases k,
{
    if k == 0 {
        if s.len() == 0 {
            assert(insert_desc(m, s) =~= s.subrange(0, 0) + seq![m] + s.subrange(0, 0));
        } else {
            assert(insert_desc(m, s) =~= s.subrange(0, 0) + seq![m] + s.subrange(
                0,
                s.len() as int,
            ));
        }
    } else {
        assert(s[0].score > m.score);
        let rest = s.drop_first();
        assert(forall|j: int| 0 <= j < k - 1 ==> rest[j].score > m.score);
        lemma_insert_desc_at(m, rest, k - 1);
        assert(seq![s[0]] + (rest.subrange(0, k - 1) + seq![m] + rest.subrange(
            k - 1,
            rest.len() as int,
        )) =~= s.subrange(0, k) + seq![m] + s.subrange(k, s.len() as int));
    }
}

/// The fuzzy-finder component: the query, the ranked matches and the
/// cursor over them.
pub struct SkimmerComponent {
    pub state: BoundedState,
    pub input: String,
    pub matches: Vec<SkimMatch>,
}

impl SkimmerComponent {
    /// The cursor tracks the match list: wrapping steps, boundary equal to
    /// its length, selection inside it.
    pub open spec fn wf(&self) -> bool {
        &&& self.state.wf()
        &&& self.state.boundary() == self.matches@.len()
        &&& self.state.wraps()
    }

    /// The fuzzy session holds nothing: no query, no matches, no
    /// selection.
    pub open spec fn spec_cleared(&self) -> bool {
        &&& self.input@ == Seq::<char>::empty()
        &&& self.matches@ == Seq::<SkimMatch>::empty()
        &&& self.state.selection() is None
    }

    /// How `skim(todos)` relates the state before to the state after:
    /// the matches become the ranking of the unchanged query against the
    /// names, and the cursor is re-bounded onto them — index 0 when
    /// anything matched, no selection otherwise. An empty query keeps
    /// every todo, in collection order, with score 0.
    pub open spec fn spec_skim_rel(
        pre: SkimmerComponent,
        post: SkimmerComponent,
        todos: Seq<Todo>,
    ) -> bool {
        &&& post.input == pre.input
        &&& post.matches@.map_values(|m: SkimMatch| m@) == spec_rank(spec_names(todos), pre.input@)
        &&& post.matches@.len() == 0 ==> post.state.selection() is None
        &&& post.matches@.len() > 0 ==> post.state.selection() == Some(0usize)
        &&& pre.input@.len() == 0 ==> post.matches@.len() == todos.len() && (forall|j: int|
            0 <= j < todos.len() ==> post.matches@.map_values(|m: SkimMatch| m@)[j]
                == (MatchModel {
                text: todos[j].name@,
                position: j,
                indices: Seq::<usize>::empty(),
                score: 0i64,
            }))
    }

    /// How one key relates the state before to the state after, and to
    /// the produced intent. Both leaving Find (Back) and submitting
    /// discard the fuzzy session; stepping moves the result cursor; any
    /// other key asks the controller for a re-rank.
    pub open spec fn spec_handle_rel(
        pre: SkimmerComponent,
        post: SkimmerComponent,
        action: crate::app::KeyAction,
        r: crate::app::AppMessage,
    ) -> bool {
        match action {
            crate::app::KeyAction::Back => {
                &&& r matches crate::app::AppMessage::InputState(s) && s
                    == crate::app::AppState::Normal
                &&& post.spec_cleared()
            },
            crate::app::KeyAction::AltMoveUp => {
                &&& r is NoAction
                &&& post.matches == pre.matches
                &&& post.input == pre.input
                &&& post.state.selection() == pre.state.step_backward()
            },
            crate::app::KeyAction::AltMoveDown => {
                &&& r is NoAction
                &&& post.matches == pre.matches
                &&& post.input == pre.input
                &&& post.state.selection() == pre.state.step_forward()
            },
            crate::app::KeyAction::Submit => {
                &&& post.spec_cleared()
                &&& match pre.state.selection() {
                    Some(s) => r matches crate::app::AppMessage::Skimmer(a) && a matches
                        SkimmerAction::ReportSelection(p) && p as int == pre.matches@[
                        s as int
                    ]@.position,
                    None => r matches crate::app::AppMessage::InputState(s) && s
                        == crate::app::AppState::Normal,
                }
            },
            _ => {
                &&& r matches crate::app::AppMessage::Skimmer(a) && a is Skim
                &&& post == pre
            },
        }
    }

    pub fn new() -> (r: Self)
        ensures
            r.wf(),
            r.input@ == Seq::<char>::empty(),
            r.matches@ == Seq::<SkimMatch>::empty(),
            r.state.selection() is None,
    {
        SkimmerComponent {
            state: BoundedState::new(0, StateWrap::Enable),
            input: String::new(),
            matches: Vec::new(),
        }
    }

    /// Forgets the query, the matches and the selection.
    pub fn clear(&mut self)
        ensures
            final(self).wf(),
            final(self).input@ == Seq::<char>::empty(),
            final(self).matches@ == Seq::<SkimMatch>::empty(),
            final(self).state.selection() is None,
    {
        self.state = BoundedState::new(0, StateWrap::Enable);
        self.matches = Vec::new();
        self.input = String::new();
    }

    /// Replaces the query string; the caller re-ranks afterwards.
    pub fn set_input(&mut self, input: String)
        ensures
            final(self).input == input,
            final(self).matches == old(self).matches,
            final(self).state == old(self).state,
    {
        self.input = input;
    }

    /// Ranks the query against the todo names: non-matching names are
    /// dropped, the rest ordered by score descending with original index
    /// order among ties, and the cursor is re-bounded onto the result —
    /// index 0 when anything matched, no selection otherwise. An empty
    /// query keeps every todo, in collection order.
    pub fn skim(&mut self, todos: &Vec<Todo>)
        requires
            old(self).wf(),
        ensures
            final(self).wf(),
            Self::spec_skim_rel(*old(self), *final(self), todos@),
    {
        let ghost names = spec_names(todos@);
        let ghost query = self.input@;
        let n = todos.len();
        let mut i: usize = 0;
        let mut gathered: Vec<SkimMatch> = Vec::new();
        while i < n
            invariant
                i <= n,
                n == todos@.len(),
                names == spec_names(todos@),
                query == self.input@,
                gathered@.map_values(|m: SkimMatch| m@) == spec_matches_upto(
                    names,
                    query,
                    i as int,
                ),
                query.len() == 0 ==> forall|j: int|
                    0 <= j < i ==> skim_match(names[j], query) == Some(
                        (0i64, Seq::<usize>::empty()),
                    ),
            decreases n - i,
        {
            let todo = &todos[i];
            if let Some((score, indices)) = fuzzy_indices(todo.name.as_str(), self.input.as_str())
             {
                let m = SkimMatch::new(todo.name.clone(), i, indices, score);
                gathered.push(m);
                proof {
                    assert(gathered@.map_values(|m: SkimMatch| m@) =~= spec_matches_upto(
                        names,
                        query,
                        i + 1,
                    ));
                }
            } else {
                proof {
                    assert(gathered@.map_values(|m: SkimMatch| m@) =~= spec_matches_upto(
                        names,
                        query,
                        i + 1,
                    ));
                }
            }
            i = i + 1;
        }
        let sorted = sort_matches(gathered);
        self.matches = sorted;
        proof {
            if query.len() == 0 {
                lemma_rank_empty_query(names, query);
            }
        }
        self.state.update_boundary(self.matches.len());
        if self.matches.len() == 0 {
            self.state.deselect();
        } else {
            let _ = self.state.select(0);
        }
    }

    pub fn next(&mut self)
        requires
            old(self).wf(),
        ensures
            final(self).wf(),
            final(self).state.selection() == old(self).state.step_forward(),
            final(self).matches == old(self).matches,
            final(self).input == old(self).input,
    {
        self.state.next();
    }

    pub fn previous(&mut self)
        requires
            old(self).wf(),
        ensures
            final(self).wf(),
            final(self).state.selection() == old(self).state.step_backward(),
            final(self).matches == old(self).matches,
            final(self).input == old(self).input,
    {
        self.state.prev();
    }

    /// The match under the cursor.
    pub fn selected_match(&self) -> (r: Option<&SkimMatch>)
        requires
            self.wf(),
        ensures
            r is Some <==> self.state.selection() is Some,
            r matches Some(m) ==> self.state.selection() matches Some(s) && *m == self.matches@[
                s as int
            ],
    {
        if let Some(i) = self.state.selected() {
            Some(&self.matches[i])
        } else {
            None
        }
    }
}

impl SkimmerComponent {
    /// One key while the finder owns input: stepping through the results,
    /// submitting the selection, leaving, or a keystroke that asks for a
    /// re-rank.
    pub fn handle_input(&mut self, action: crate::app::KeyAction) -> (r: crate::app::AppMessage)
        requires
            old(self).wf(),
        ensures
            final(self).wf(),
            Self::spec_handle_rel(*old(self), *final(self), action, r),
    {
        match action {
            crate::app::KeyAction::Back => {
                self.clear();
                crate::app::AppMessage::InputState(crate::app::AppState::Normal)
            },
            crate::app::KeyAction::AltMoveUp => {
                self.previous();
                crate::app::AppMessage::NoAction
            },
            crate::app::KeyAction::AltMoveDown => {
                self.next();
                crate::app::AppMessage::NoAction
            },
            crate::app::KeyAction::Submit => {
                let response = if let Some(s) = self.selected_match() {
                    crate::app::AppMessage::Skimmer(SkimmerAction::ReportSelection(s.position))
                } else {
                    crate::app::AppMessage::InputState(crate::app::AppState::Normal)
                };
                self.clear();
                response
            },
            _ => crate::app::AppMessage::Skimmer(SkimmerAction::Skim),
        }
    }
}

/// Sorts the gathered matches by score, highest first, keeping the
/// original order among equal scores: the executable side of `sort_desc`.
fn sort_matches(input: Vec<SkimMatch>) -> (r: Vec<SkimMatch>)
    ensures
        r@.map_values(|m: SkimMatch| m@) == sort_desc(input@.map_values(|m: SkimMatch| m@)),
{
    let ghost model = input@.map_values(|m: SkimMatch| m@);
    let mut rest = input;
    let mut sorted: Vec<SkimMatch> = Vec::new();
    proof {
        assert(rest@.map_values(|m: SkimMatch| m@) =~= model.subrange(0, rest@.len() as int));
        assert(model.subrange(model.len() as int, model.len() as int) =~= Seq::<
            MatchModel,
        >::empty());
    }
    while rest.len() > 0
        invariant
            rest@.len() <= model.len(),
            rest@.map_values(|m: SkimMatch| m@) == model.subrange(0, rest@.len() as int),
            sorted@.map_values(|m: SkimMatch| m@) == sort_desc(
                model.subrange(rest@.len() as int, model.len() as int),
            ),
        decreases rest@.len(),
    {
        let ghost r = rest@.len() as int;
        let popped = rest.pop();
        if let Some(m) = popped {
            proof {
                assert(m@ == model.subrange(0, r)[r - 1]);
                assert(model.subrange(r - 1, model.len() as int).drop_first() =~= model.subrange(
                    r,
                    model.len() as int,
                ));
                assert(model.subrange(r - 1, model.len() as int)[0] == model[r - 1]);
                assert(rest@.map_values(|x: SkimMatch| x@) =~= model.subrange(0, r - 1));
            }
            insert_match(&mut sorted, m);
            proof {
                assert(sorted@.map_values(|x: SkimMatch| x@) == sort_desc(
                    model.subrange(r - 1, model.len() as int),
                ));
            }
        }
    }
    proof {
        assert(model.subrange(0, model.len() as int) =~= model);
    }
    sorted
}

/// Places `m` into the sorted vector exactly where `insert_desc` puts it.
fn insert_match(sorted: &mut Vec<SkimMatch>, m: SkimMatch)
    ensures
        final(sorted)@.map_values(|x: SkimMatch| x@) == insert_desc(
            m@,
            old(sorted)@.map_values(|x: SkimMatch| x@),
        ),
{
    let ghost model = sorted@.map_values(|x: SkimMatch| x@);
    let n = sorted.len();
    let mut k: usize = 0;
    while k < n && sorted[k].score() > m.score()
        invariant
            k <= n,
            n == sorted@.len(),
            model == sorted@.map_values(|x: SkimMatch| x@),
            forall|j: int| 0 <= j < k ==> model[j].score > m@.score,
        decreases n - k,
    {
        k = k + 1;
    }
    proof {
        lemma_insert_desc_at(m@, model, k as int);
    }
    sorted.insert(k, m);
    proof {
        assert(sorted@.map_values(|x: SkimMatch| x@) =~= model.subrange(0, k as int) + seq![m@]
            + model.subrange(k as int, model.len() as int));
    }
}

impl SkimMatch {
    /// The match's score.
    pub fn score(&self) -> (r: i64)
        ensures
            r == self@.score,
    {
        self.score
    }
}

} // verus!
