//! The scoreboard: the points that the stored events record, summed by year
//! and form, by year, by form, and over all configured forms.

use std::collections::BTreeMap;
use vstd::prelude::*;

use crate::configurator::parser::{Form, FormView};
use crate::db::events::{Events, EventsView};
use crate::db::years::{Years, YearsView};
use crate::model::{texts, views};
use crate::utils::numbers::{parse_score, score_of};

verus! {

/// Points that one event records for one form.
#[derive(Clone, PartialEq, Eq, Debug)]
pub struct Point {
    /// The year of the event.
    pub year_id: String,
    /// The form that scored.
    pub form_id: String,
    /// The points, which may be negative.
    pub score: i64,
}

/// Mathematical content of a [`Point`].
pub struct PointView {
    pub year_id: Seq<char>,
    pub form_id: Seq<char>,
    pub score: int,
}

impl View for Point {
    type V = PointView;

    open spec fn view(&self) -> PointView {
        PointView { year_id: self.year_id@, form_id: self.form_id@, score: self.score as int }
    }
}

/// A choice of points to sum.
pub enum Selection {
    /// The points of one form in one year.
    Cell { year_id: String, form_id: String },
    /// The points of one year.
    Year(String),
    /// The points of one form.
    Form(String),
    /// The points of the listed forms.
    Forms(Vec<String>),
}

/// Mathematical content of a [`Selection`].
pub enum SelectionView {
    Cell { year_id: Seq<char>, form_id: Seq<char> },
    Year(Seq<char>),
    Form(Seq<char>),
    Forms(Seq<Seq<char>>),
}

impl View for Selection {
    type V = SelectionView;

    open spec fn view(&self) -> SelectionView {
        match *self {
            Selection::Cell { year_id, form_id } => SelectionView::Cell {
                year_id: year_id@,
                form_id: form_id@,
            },
            Selection::Year(year_id) => SelectionView::Year(year_id@),
            Selection::Form(form_id) => SelectionView::Form(form_id@),
            Selection::Forms(form_ids) => SelectionView::Forms(texts(form_ids@)),
        }
    }
}

impl SelectionView {
    /// Whether the selection takes `point`.
    pub open spec fn selects(self, point: PointView) -> bool {
        match self {
            SelectionView::Cell { year_id, form_id } => point.year_id == year_id && point.form_id
                == form_id,
            SelectionView::Year(year_id) => point.year_id == year_id,
            SelectionView::Form(form_id) => point.form_id == form_id,
            SelectionView::Forms(form_ids) => form_ids.contains(point.form_id),
        }
    }
}

/// The sum of the selected points.
pub open spec fn total_of(points: Seq<PointView>, selection: SelectionView) -> int
    decreases points.len(),
{
    if points.len() == 0 {
        0
    } else if selection.selects(points.last()) {
        total_of(points.drop_last(), selection) + points.last().score
    } else {
        total_of(points.drop_last(), selection)
    }
}

/// Whether a number lies in the range of a score.
pub open spec fn is_score(number: int) -> bool {
    i64::MIN <= number <= i64::MAX
}

/// Whether `id` is one of `ids`.
fn is_listed(ids: &Vec<String>, id: &String) -> (listed: bool)
    ensures
        listed == texts(ids@).contains(id@),
{
    let mut i: usize = 0;
    while i < ids.len()
        invariant
            i <= ids.len(),
            forall|j: int| 0 <= j < i ==> texts(ids@)[j] != id@,
        decreases ids.len() - i,
    {
        if ids[i] == *id {
            assert(texts(ids@)[i as int] == id@);
            return true;
        }
        i += 1;
    }
    false
}

impl Selection {
    /// Whether the selection takes `point`.
    pub fn selects(&self, point: &Point) -> (selected: bool)
        ensures
            selected == self@.selects(point@),
    {
        match self {
            Selection::Cell { year_id, form_id } => point.year_id == *year_id && point.form_id
                == *form_id,
            Selection::Year(year_id) => point.year_id == *year_id,
            Selection::Form(form_id) => point.form_id == *form_id,
            Selection::Forms(form_ids) => is_listed(form_ids, &point.form_id),
        }
    }
}

/// The sum of the selected points, in a range that holds every such sum: a
/// list has fewer points than two to the power of 64, and no score is further
/// from zero than two to the power of 63.
fn wide_total(points: &Vec<Point>, selection: &Selection) -> (total: i128)
    ensures
        total == total_of(views(points@), selection@),
{
    let mut total: i128 = 0;
    let mut i: usize = 0;
    while i < points.len()
        invariant
            i <= points.len(),
            total == total_of(views(points@).take(i as int), selection@),
            -(i * 0x8000_0000_0000_0000) <= total <= i * 0x8000_0000_0000_0000,
        decreases points.len() - i,
    {
        assert(views(points@).take(i + 1).drop_last() == views(points@).take(i as int));
        assert(views(points@).take(i + 1).last() == points[i as int]@);
        if selection.selects(&points[i]) {
            total = total + points[i].score as i128;
        }
        i += 1;
    }
    assert(views(points@).take(i as int) == views(points@));
    total
}

/// The sum of the selected points, where it lies in the range of a score.
/// Sums on the way to it may leave that range and come back: only the sum
/// itself counts.
pub fn total(points: &Vec<Point>, selection: &Selection) -> (total: Option<i64>)
    ensures
        match total {
            Some(total) => total == total_of(views(points@), selection@),
            None => !is_score(total_of(views(points@), selection@)),
        },
{
    let wide = wide_total(points, selection);
    if wide < i64::MIN as i128 || wide > i64::MAX as i128 {
        None
    } else {
        Some(wide as i64)
    }
}

/// The items of a list without repetitions: each item stays where it first
/// occurs.
pub open spec fn distinct<A>(items: Seq<A>) -> Seq<A>
    decreases items.len(),
{
    if items.len() == 0 {
        Seq::empty()
    } else if items.drop_last().contains(items.last()) {
        distinct(items.drop_last())
    } else {
        distinct(items.drop_last()).push(items.last())
    }
}

/// `distinct` keeps exactly the items of the list, each of them once.
pub proof fn distinct_keeps_each_once<A>(items: Seq<A>)
    ensures
        forall|item: A| #[trigger] distinct(items).contains(item) <==> items.contains(item),
        distinct(items).no_duplicates(),
    decreases items.len(),
{
    if items.len() > 0 {
        let rest = items.drop_last();
        let last = items.last();
        distinct_keeps_each_once(rest);
        assert forall|item: A| #[trigger]
            distinct(items).contains(item) <==> items.contains(item) by {
            if items.contains(item) {
                let i = choose|i: int| 0 <= i < items.len() && items[i] == item;
                if i < rest.len() {
                    assert(rest[i] == item);
                    assert(rest.contains(item));
                    assert(distinct(rest).contains(item));
                    let j = choose|j: int| 0 <= j < distinct(rest).len() && distinct(rest)[j] == item;
                    assert(distinct(items)[j] == item);
                } else if !rest.contains(last) {
                    assert(distinct(items).last() == item);
                } else {
                    assert(distinct(rest).contains(item));
                }
            }
            if distinct(items).contains(item) {
                let j = choose|j: int| 0 <= j < distinct(items).len() && distinct(items)[j] == item;
                if j < distinct(rest).len() {
                    assert(distinct(rest)[j] == item);
                    assert(distinct(rest).contains(item));
                    let i = choose|i: int| 0 <= i < rest.len() && rest[i] == item;
                    assert(items[i] == item);
                } else {
                    assert(items[items.len() - 1] == item);
                }
            }
        }
        if !rest.contains(last) {
            assert forall|i: int, j: int|
                0 <= i < distinct(items).len() && 0 <= j < distinct(items).len() && i
                    != j implies distinct(items)[i] != distinct(items)[j] by {
                if i == distinct(rest).len() {
                    assert(distinct(rest)[j] == distinct(items)[j]);
                    assert(distinct(rest).contains(distinct(rest)[j]));
                } else if j == distinct(rest).len() {
                    assert(distinct(rest)[i] == distinct(items)[i]);
                    assert(distinct(rest).contains(distinct(rest)[i]));
                }
            }
        }
    }
}

/// A sum under a name: the total of a year or of a form.
#[derive(Clone, PartialEq, Eq, Debug)]
pub struct Total {
    /// Identifier of the year or form.
    pub id: String,
    /// The sum of its points.
    pub total: i64,
}

/// Mathematical content of a [`Total`].
pub struct TotalView {
    pub id: Seq<char>,
    pub total: int,
}

impl View for Total {
    type V = TotalView;

    open spec fn view(&self) -> TotalView {
        TotalView { id: self.id@, total: self.total as int }
    }
}

/// What the scoreboard shows.
pub struct ScoreboardPartialTemplate {
    /// The configured forms.
    pub forms: Vec<Form>,
    /// The stored years.
    pub years: Vec<Years>,
    /// For each year and form with points, their sum.
    pub scores: Vec<Point>,
    /// For each year with readable scores, the sum of its points.
    pub year_totals: Vec<Total>,
    /// For each configured form, the sum of its points.
    pub form_totals: Vec<Total>,
    /// The sum of the points of all configured forms.
    pub grand_total: i64,
}

/// Mathematical content of a [`ScoreboardPartialTemplate`].
pub struct ScoreboardView {
    pub forms: Seq<FormView>,
    pub years: Seq<YearsView>,
    pub scores: Seq<PointView>,
    pub year_totals: Seq<TotalView>,
    pub form_totals: Seq<TotalView>,
    pub grand_total: int,
}

impl View for ScoreboardPartialTemplate {
    type V = ScoreboardView;

    open spec fn view(&self) -> ScoreboardView {
        ScoreboardView {
            forms: views(self.forms@),
            years: views(self.years@),
            scores: views(self.scores@),
            year_totals: views(self.year_totals@),
            form_totals: views(self.form_totals@),
            grand_total: self.grand_total as int,
        }
    }
}

impl ScoreboardView {
    /// Whether every number that the scoreboard shows lies in the range of a
    /// score: each score of a year and form, each total of a year, each
    /// total of a form, and the grand total.
    pub open spec fn fits(self) -> bool {
        &&& forall|i: int| 0 <= i < self.scores.len() ==> is_score((#[trigger] self.scores[i]).score)
        &&& forall|i: int|
            0 <= i < self.year_totals.len() ==> is_score((#[trigger] self.year_totals[i]).total)
        &&& forall|i: int|
            0 <= i < self.form_totals.len() ==> is_score((#[trigger] self.form_totals[i]).total)
        &&& is_score(self.grand_total)
    }
}

/// The year and form of each point.
pub open spec fn keys(points: Seq<PointView>) -> Seq<(Seq<char>, Seq<char>)> {
    Seq::new(points.len(), |i: int| (points[i].year_id, points[i].form_id))
}

/// The identifier of each form.
pub open spec fn form_ids(forms: Seq<FormView>) -> Seq<Seq<char>> {
    Seq::new(forms.len(), |i: int| forms[i].id)
}

/// The step from a year and form to the sum of their points.
pub open spec fn cell_of(points: Seq<PointView>) -> spec_fn((Seq<char>, Seq<char>)) -> PointView {
    |key: (Seq<char>, Seq<char>)|
        PointView {
            year_id: key.0,
            form_id: key.1,
            score: total_of(points, SelectionView::Cell { year_id: key.0, form_id: key.1 }),
        }
}

/// The step from a year to the sum of its points.
pub open spec fn year_total_of(points: Seq<PointView>) -> spec_fn(Seq<char>) -> TotalView {
    |year_id: Seq<char>|
        TotalView { id: year_id, total: total_of(points, SelectionView::Year(year_id)) }
}

/// The step from a form to the sum of its points.
pub open spec fn form_total_of(points: Seq<PointView>) -> spec_fn(Seq<char>) -> TotalView {
    |form_id: Seq<char>|
        TotalView { id: form_id, total: total_of(points, SelectionView::Form(form_id)) }
}

/// The scoreboard of the given points.
///
/// There is one score for each year and form that some point names, in the
/// order in which the points first name them. There is one total for each
/// year in `sheet_years`, the years of the events whose scores could be read,
/// also where such a year has no points. There is one total for each
/// configured form. The grand total counts the points of configured forms.
pub open spec fn tallied(
    forms: Seq<FormView>,
    years: Seq<YearsView>,
    sheet_years: Seq<Seq<char>>,
    points: Seq<PointView>,
) -> ScoreboardView {
    ScoreboardView {
        forms,
        years,
        scores: distinct(keys(points)).map_values(cell_of(points)),
        year_totals: distinct(sheet_years).map_values(year_total_of(points)),
        form_totals: distinct(form_ids(forms)).map_values(form_total_of(points)),
        grand_total: total_of(points, SelectionView::Forms(form_ids(forms))),
    }
}

/// The sum of the totals of the listed forms.
pub open spec fn sum_of_form_totals(form_ids: Seq<Seq<char>>, points: Seq<PointView>) -> int
    decreases form_ids.len(),
{
    if form_ids.len() == 0 {
        0
    } else {
        sum_of_form_totals(form_ids.drop_last(), points) + total_of(
            points,
            SelectionView::Form(form_ids.last()),
        )
    }
}

/// One more point adds its score to the totals of the listed forms where
/// its form is listed, once, and nothing where it is not.
pub proof fn point_counts_once(form_ids: Seq<Seq<char>>, points: Seq<PointView>, point: PointView)
    requires
        form_ids.no_duplicates(),
    ensures
        sum_of_form_totals(form_ids, points.push(point)) == sum_of_form_totals(form_ids, points)
            + if form_ids.contains(point.form_id) {
            point.score
        } else {
            0
        },
    decreases form_ids.len(),
{
    if form_ids.len() > 0 {
        let rest = form_ids.drop_last();
        let last = form_ids.last();
        point_counts_once(rest, points, point);
        assert(points.push(point).drop_last() == points);
        if last == point.form_id {
            assert(form_ids[form_ids.len() - 1] == point.form_id);
            if rest.contains(point.form_id) {
                let i = choose|i: int| 0 <= i < rest.len() && rest[i] == point.form_id;
                assert(form_ids[i] == form_ids[form_ids.len() - 1]);
            }
        } else if form_ids.contains(point.form_id) {
            let i = choose|i: int| 0 <= i < form_ids.len() && form_ids[i] == point.form_id;
            assert(rest[i] == point.form_id);
        } else if rest.contains(point.form_id) {
            let i = choose|i: int| 0 <= i < rest.len() && rest[i] == point.form_id;
            assert(form_ids[i] == point.form_id);
        }
    }
}

/// Without points every total is zero.
pub proof fn no_points_no_totals(form_ids: Seq<Seq<char>>)
    ensures
        sum_of_form_totals(form_ids, Seq::empty()) == 0,
    decreases form_ids.len(),
{
    if form_ids.len() > 0 {
        no_points_no_totals(form_ids.drop_last());
    }
}

/// The totals of forms that are listed once each add up to the sum of the
/// points of the listed forms.
pub proof fn form_totals_add_up(form_ids: Seq<Seq<char>>, points: Seq<PointView>)
    requires
        form_ids.no_duplicates(),
    ensures
        sum_of_form_totals(form_ids, points) == total_of(points, SelectionView::Forms(form_ids)),
    decreases points.len(),
{
    if points.len() == 0 {
        no_points_no_totals(form_ids);
        assert(points == Seq::<PointView>::empty());
    } else {
        form_totals_add_up(form_ids, points.drop_last());
        point_counts_once(form_ids, points.drop_last(), points.last());
        assert(points.drop_last().push(points.last()) == points);
    }
}

/// Listing a form more than once changes nothing: the points of the listed
/// forms are those of the forms listed once each.
pub proof fn repeated_forms_count_once(form_ids: Seq<Seq<char>>, points: Seq<PointView>)
    ensures
        total_of(points, SelectionView::Forms(form_ids)) == total_of(
            points,
            SelectionView::Forms(distinct(form_ids)),
        ),
    decreases points.len(),
{
    if points.len() > 0 {
        repeated_forms_count_once(form_ids, points.drop_last());
        distinct_keeps_each_once(form_ids);
    }
}

/// The grand total of a scoreboard is the sum of its form totals.
pub proof fn grand_total_is_sum_of_form_totals(
    forms: Seq<FormView>,
    years: Seq<YearsView>,
    sheet_years: Seq<Seq<char>>,
    points: Seq<PointView>,
)
    ensures
        tallied(forms, years, sheet_years, points).grand_total == sum_of_form_totals(
            distinct(form_ids(forms)),
            points,
        ),
        tallied(forms, years, sheet_years, points).form_totals.len() == distinct(
            form_ids(forms),
        ).len(),
        forall|k: int|
            0 <= k < distinct(form_ids(forms)).len() ==> (#[trigger] tallied(
                forms,
                years,
                sheet_years,
                points,
            ).form_totals[k]).total == total_of(
                points,
                SelectionView::Form(distinct(form_ids(forms))[k]),
            ),
{
    distinct_keeps_each_once(form_ids(forms));
    form_totals_add_up(distinct(form_ids(forms)), points);
    repeated_forms_count_once(form_ids(forms), points);
}

/// The identifiers among `ids`, each once, where it first occurs.
fn first_occurrences(ids: &Vec<String>) -> (firsts: Vec<String>)
    ensures
        texts(firsts@) == distinct(texts(ids@)),
{
    let mut firsts: Vec<String> = Vec::new();
    let mut i: usize = 0;
    assert(texts(firsts@) == distinct(texts(ids@).take(0)));
    while i < ids.len()
        invariant
            i <= ids.len(),
            texts(firsts@) == distinct(texts(ids@).take(i as int)),
        decreases ids.len() - i,
    {
        let ghost before = texts(firsts@);
        let ghost seen = texts(ids@).take(i as int);
        assert(texts(ids@).take(i + 1).drop_last() == seen);
        let mut j: usize = 0;
        let mut repeated = false;
        while j < i
            invariant
                j <= i,
                i < ids.len(),
                seen == texts(ids@).take(i as int),
                repeated == exists|k: int| 0 <= k < j && seen[k] == ids[i as int]@,
            decreases i - j,
        {
            if ids[j] == ids[i] {
                assert(seen[j as int] == ids[i as int]@);
                repeated = true;
            }
            j += 1;
        }
        assert(repeated == seen.contains(ids[i as int]@));
        if !repeated {
            firsts.push(ids[i].clone());
            assert(texts(firsts@) == before.push(ids[i as int]@));
        }
        i += 1;
    }
    assert(texts(ids@).take(i as int) == texts(ids@));
    firsts
}

/// The totals of the listed years or forms, each once, where each lies in
/// the range of a score.
fn totals(ids: &Vec<String>, points: &Vec<Point>, by_year: bool) -> (totals: Option<Vec<Total>>)
    ensures
        match totals {
            Some(totals) => views(totals@) == distinct(texts(ids@)).map_values(
                if by_year {
                    year_total_of(views(points@))
                } else {
                    form_total_of(views(points@))
                },
            ),
            None => exists|k: int|
                0 <= k < distinct(texts(ids@)).len() && !is_score(
                    (if by_year {
                        year_total_of(views(points@))
                    } else {
                        form_total_of(views(points@))
                    })(#[trigger] distinct(texts(ids@))[k]).total,
                ),
        },
{
    let ghost step = if by_year {
        year_total_of(views(points@))
    } else {
        form_total_of(views(points@))
    };
    let firsts = first_occurrences(ids);
    let mut totals: Vec<Total> = Vec::new();
    let mut i: usize = 0;
    while i < firsts.len()
        invariant
            i <= firsts.len(),
            texts(firsts@) == distinct(texts(ids@)),
            step == if by_year {
                year_total_of(views(points@))
            } else {
                form_total_of(views(points@))
            },
            totals.len() == i,
            forall|k: int| 0 <= k < i ==> (#[trigger] totals[k])@ == step(texts(firsts@)[k]),
        decreases firsts.len() - i,
    {
        let selection = if by_year {
            Selection::Year(firsts[i].clone())
        } else {
            Selection::Form(firsts[i].clone())
        };
        assert(texts(firsts@)[i as int] == firsts[i as int]@);
        match total(points, &selection) {
            Some(sum) => {
                totals.push(Total { id: firsts[i].clone(), total: sum });
            },
            None => {
                assert(!is_score(step(distinct(texts(ids@))[i as int]).total));
                return None;
            },
        }
        i += 1;
    }
    assert(views(totals@) =~= texts(firsts@).map_values(step));
    Some(totals)
}

/// The year and form of each point, each pair once, where it first occurs.
fn first_keys(points: &Vec<Point>) -> (firsts: Vec<(String, String)>)
    ensures
        entry_texts(firsts@) == distinct(keys(views(points@))),
{
    let ghost all = keys(views(points@));
    let mut firsts: Vec<(String, String)> = Vec::new();
    let mut i: usize = 0;
    assert(entry_texts(firsts@) == distinct(all.take(0)));
    while i < points.len()
        invariant
            i <= points.len(),
            all == keys(views(points@)),
            entry_texts(firsts@) == distinct(all.take(i as int)),
        decreases points.len() - i,
    {
        let ghost before = entry_texts(firsts@);
        let ghost seen = all.take(i as int);
        assert(all.take(i + 1).drop_last() == seen);
        let mut j: usize = 0;
        let mut repeated = false;
        while j < i
            invariant
                j <= i,
                i < points.len(),
                all == keys(views(points@)),
                seen == all.take(i as int),
                repeated == exists|k: int| 0 <= k < j && seen[k] == all[i as int],
            decreases i - j,
        {
            if points[j].year_id == points[i].year_id && points[j].form_id == points[i].form_id {
                assert(seen[j as int] == all[i as int]);
                repeated = true;
            }
            j += 1;
        }
        assert(repeated == seen.contains(all[i as int]));
        if !repeated {
            firsts.push((points[i].year_id.clone(), points[i].form_id.clone()));
            assert(entry_texts(firsts@) == before.push(all[i as int]));
        }
        i += 1;
    }
    assert(all.take(i as int) == all);
    firsts
}

/// The sum of each year and form that the points name, each pair once,
/// where each sum lies in the range of a score.
fn cells(points: &Vec<Point>) -> (cells: Option<Vec<Point>>)
    ensures
        match cells {
            Some(cells) => views(cells@) == distinct(keys(views(points@))).map_values(
                cell_of(views(points@)),
            ),
            None => exists|k: int|
                0 <= k < distinct(keys(views(points@))).len() && !is_score(
                    cell_of(views(points@))(#[trigger] distinct(keys(views(points@)))[k]).score,
                ),
        },
{
    let ghost step = cell_of(views(points@));
    let firsts = first_keys(points);
    let mut cells: Vec<Point> = Vec::new();
    let mut i: usize = 0;
    while i < firsts.len()
        invariant
            i <= firsts.len(),
            entry_texts(firsts@) == distinct(keys(views(points@))),
            step == cell_of(views(points@)),
            cells.len() == i,
            forall|k: int| 0 <= k < i ==> (#[trigger] cells[k])@ == step(entry_texts(firsts@)[k]),
        decreases firsts.len() - i,
    {
        let selection = Selection::Cell {
            year_id: firsts[i].0.clone(),
            form_id: firsts[i].1.clone(),
        };
        assert(entry_texts(firsts@)[i as int] == (firsts[i as int].0@, firsts[i as int].1@));
        match total(points, &selection) {
            Some(sum) => {
                cells.push(
                    Point { year_id: firsts[i].0.clone(), form_id: firsts[i].1.clone(), score: sum },
                );
            },
            None => {
                assert(!is_score(step(distinct(keys(views(points@)))[i as int]).score));
                return None;
            },
        }
        i += 1;
    }
    assert(views(cells@) =~= entry_texts(firsts@).map_values(step));
    Some(cells)
}

/// The identifiers of the forms, in order.
fn ids_of(forms: &Vec<Form>) -> (ids: Vec<String>)
    ensures
        texts(ids@) == form_ids(views(forms@)),
{
    let mut ids: Vec<String> = Vec::new();
    let mut i: usize = 0;
    while i < forms.len()
        invariant
            i <= forms.len(),
            ids.len() == i,
            forall|k: int| 0 <= k < i ==> (#[trigger] ids[k])@ == forms[k].id@,
        decreases forms.len() - i,
    {
        ids.push(forms[i].id.clone());
        i += 1;
    }
    assert(texts(ids@) =~= form_ids(views(forms@)));
    ids
}

/// The scoreboard of `points`, for the configured `forms`, the stored
/// `years` and the years of the events whose scores could be read. There is
/// a scoreboard exactly where every number that it shows lies in the range
/// of a score.
pub fn tally(forms: Vec<Form>, years: Vec<Years>, sheet_years: &Vec<String>, points: &Vec<Point>)
    -> (board: Option<ScoreboardPartialTemplate>)
    ensures
        match board {
            Some(board) => board@ == tallied(
                views(forms@),
                views(years@),
                texts(sheet_years@),
                views(points@),
            ) && board@.fits(),
            None => !tallied(
                views(forms@),
                views(years@),
                texts(sheet_years@),
                views(points@),
            ).fits(),
        },
{
    let ghost expected = tallied(
        views(forms@),
        views(years@),
        texts(sheet_years@),
        views(points@),
    );
    let form_ids = ids_of(&forms);
    let scores = match cells(points) {
        Some(scores) => scores,
        None => {
            let ghost k = choose|k: int|
                0 <= k < distinct(keys(views(points@))).len() && !is_score(
                    cell_of(views(points@))(#[trigger] distinct(keys(views(points@)))[k]).score,
                );
            assert(!is_score(expected.scores[k].score));
            return None;
        },
    };
    let year_totals = match totals(sheet_years, points, true) {
        Some(year_totals) => year_totals,
        None => {
            let ghost k = choose|k: int|
                0 <= k < distinct(texts(sheet_years@)).len() && !is_score(
                    year_total_of(views(points@))(#[trigger] distinct(texts(sheet_years@))[k]).total,
                );
            assert(!is_score(expected.year_totals[k].total));
            return None;
        },
    };
    let form_totals = match totals(&form_ids, points, false) {
        Some(form_totals) => form_totals,
        None => {
            let ghost k = choose|k: int|
                0 <= k < distinct(texts(form_ids@)).len() && !is_score(
                    form_total_of(views(points@))(#[trigger] distinct(texts(form_ids@))[k]).total,
                );
            assert(!is_score(expected.form_totals[k].total));
            return None;
        },
    };
    let grand_total = match total(points, &Selection::Forms(form_ids)) {
        Some(grand_total) => grand_total,
        None => {
            return None;
        },
    };
    let board = ScoreboardPartialTemplate {
        forms,
        years,
        scores,
        year_totals,
        form_totals,
        grand_total,
    };
    assert(board@ == expected);
    assert(board@.fits()) by {
        assert forall|i: int| 0 <= i < board@.scores.len() implies is_score(
            (#[trigger] board@.scores[i]).score,
        ) by {
            assert(board@.scores[i] == board.scores[i]@);
        }
        assert forall|i: int| 0 <= i < board@.year_totals.len() implies is_score(
            (#[trigger] board@.year_totals[i]).total,
        ) by {
            assert(board@.year_totals[i] == board.year_totals[i]@);
        }
        assert forall|i: int| 0 <= i < board@.form_totals.len() implies is_score(
            (#[trigger] board@.form_totals[i]).total,
        ) by {
            assert(board@.form_totals[i] == board.form_totals[i]@);
        }
    }
    Some(board)
}

/// What `serde_json::from_str` reads from a scores text as a map from
/// strings to strings: its entries, in the order of their keys, or nothing
/// where the text is no such map.
pub uninterp spec fn score_entries(scores: Seq<char>) -> Option<Seq<(Seq<char>, Seq<char>)>>;

/// The texts of a list of entries.
pub open spec fn entry_texts(entries: Seq<(String, String)>) -> Seq<(Seq<char>, Seq<char>)> {
    Seq::new(entries.len(), |i: int| (entries[i].0@, entries[i].1@))
}

/// The texts of an optional list of entries.
pub open spec fn optional_entry_texts(entries: Option<Vec<(String, String)>>) -> Option<
    Seq<(Seq<char>, Seq<char>)>,
> {
    match entries {
        Some(entries) => Some(entry_texts(entries@)),
        None => None,
    }
}

/// `serde_json::from_str` for a map from strings to strings, which is then
/// walked in the order of its keys.
#[verifier::external_body]
fn parse_scores(scores: &str) -> (entries: Option<Vec<(String, String)>>)
    ensures
        optional_entry_texts(entries) == score_entries(scores@),
{
    match serde_json::from_str::<BTreeMap<String, String>>(scores) {
        Ok(entries) => Some(entries.into_iter().collect()),
        Err(_) => None,
    }
}

/// The points among the entries of an event of the year `year_id`: one for
/// each entry whose text denotes a score.
pub open spec fn entry_points(year_id: Seq<char>, entries: Seq<(Seq<char>, Seq<char>)>) -> Seq<
    PointView,
>
    decreases entries.len(),
{
    if entries.len() == 0 {
        Seq::empty()
    } else {
        match score_of(entries.last().1) {
            Some(score) => entry_points(year_id, entries.drop_last()).push(
                PointView { year_id, form_id: entries.last().0, score },
            ),
            None => entry_points(year_id, entries.drop_last()),
        }
    }
}

/// The points that an event records. An event whose scores cannot be read
/// records none.
pub open spec fn event_points(event: EventsView) -> Seq<PointView> {
    match score_entries(event.scores) {
        Some(entries) => entry_points(event.year_id, entries),
        None => Seq::empty(),
    }
}

/// The points that the events record, event by event.
pub open spec fn points_of(events: Seq<EventsView>) -> Seq<PointView>
    decreases events.len(),
{
    if events.len() == 0 {
        Seq::empty()
    } else {
        points_of(events.drop_last()) + event_points(events.last())
    }
}

/// The years of the events whose scores can be read, event by event.
pub open spec fn sheet_years_of(events: Seq<EventsView>) -> Seq<Seq<char>>
    decreases events.len(),
{
    if events.len() == 0 {
        Seq::empty()
    } else if score_entries(events.last().scores) is Some {
        sheet_years_of(events.drop_last()).push(events.last().year_id)
    } else {
        sheet_years_of(events.drop_last())
    }
}

/// What was read from the stored events.
pub struct Reading {
    /// The year of each event whose scores could be read.
    pub sheet_years: Vec<String>,
    /// The points that those events record.
    pub points: Vec<Point>,
}

/// Appends to `points` those among `entries`, for an event of `year_id`.
fn push_entry_points(points: &mut Vec<Point>, year_id: &String, entries: &Vec<(String, String)>)
    ensures
        views(final(points)@) == views(old(points)@) + entry_points(
            year_id@,
            entry_texts(entries@),
        ),
{
    let ghost before = views(points@);
    let ghost all = entry_texts(entries@);
    let mut i: usize = 0;
    assert(views(points@) == before + entry_points(year_id@, all.take(0)));
    while i < entries.len()
        invariant
            i <= entries.len(),
            all == entry_texts(entries@),
            views(points@) == before + entry_points(year_id@, all.take(i as int)),
        decreases entries.len() - i,
    {
        let ghost so_far = views(points@);
        assert(all.take(i + 1).drop_last() == all.take(i as int));
        assert(all.take(i + 1).last() == (entries[i as int].0@, entries[i as int].1@));
        match parse_score(entries[i].1.as_str()) {
            Some(score) => {
                points.push(Point { year_id: year_id.clone(), form_id: entries[i].0.clone(), score });
                assert(views(points@) == so_far.push(
                    PointView { year_id: year_id@, form_id: entries[i as int].0@, score: score as int },
                ));
            },
            None => {},
        }
        i += 1;
    }
    assert(all.take(i as int) == all);
}

/// Reads the points that the stored events record. An event's scores are a
/// JSON object from form identifier to a score written as a string; an event
/// whose scores are anything else is passed over, and so is an entry whose
/// string is no number.
pub fn read_points(events: &Vec<Events>) -> (reading: Reading)
    ensures
        texts(reading.sheet_years@) == sheet_years_of(views(events@)),
        views(reading.points@) == points_of(views(events@)),
{
    let mut sheet_years: Vec<String> = Vec::new();
    let mut points: Vec<Point> = Vec::new();
    let mut i: usize = 0;
    assert(texts(sheet_years@) == sheet_years_of(views(events@).take(0)));
    assert(views(points@) == points_of(views(events@).take(0)));
    while i < events.len()
        invariant
            i <= events.len(),
            texts(sheet_years@) == sheet_years_of(views(events@).take(i as int)),
            views(points@) == points_of(views(events@).take(i as int)),
        decreases events.len() - i,
    {
        let ghost years_before = texts(sheet_years@);
        let ghost points_before = views(points@);
        assert(views(events@).take(i + 1).drop_last() == views(events@).take(i as int));
        assert(views(events@).take(i + 1).last() == events[i as int]@);
        match parse_scores(events[i].scores.as_str()) {
            Some(entries) => {
                sheet_years.push(events[i].year_id.clone());
                assert(texts(sheet_years@) == years_before.push(events[i as int].year_id@));
                push_entry_points(&mut points, &events[i].year_id, &entries);
            },
            None => {
                assert(views(points@) + Seq::<PointView>::empty() == views(points@));
            },
        }
        i += 1;
    }
    assert(views(events@).take(i as int) == views(events@));
    Reading { sheet_years, points }
}

/// The scoreboard of the stored events, for the configured forms and the
/// stored years. There is a scoreboard exactly where every number that it
/// shows lies in the range of a score: points that cancel each other do not
/// stand in its way.
pub fn scoreboard(forms: Vec<Form>, years: Vec<Years>, events: &Vec<Events>) -> (board: Option<
    ScoreboardPartialTemplate,
>)
    ensures
        match board {
            Some(board) => board@ == tallied(
                views(forms@),
                views(years@),
                sheet_years_of(views(events@)),
                points_of(views(events@)),
            ) && board@.fits(),
            None => !tallied(
                views(forms@),
                views(years@),
                sheet_years_of(views(events@)),
                points_of(views(events@)),
            ).fits(),
        },
{
    let reading = read_points(events);
    tally(forms, years, &reading.sheet_years, &reading.points)
}

} // verus!
