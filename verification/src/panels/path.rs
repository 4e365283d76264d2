//! What an overlay draws: lines through points of the screen, as an SVG path says them.
use crate::amount::{Amount, Places};
use vstd::prelude::*;

verus! {

/// A point of the screen, in pixels.
#[derive(Clone, Copy, PartialEq, Eq, Structural, Debug)]
pub struct Spot {
    pub x: Amount,
    pub y: Amount,
}

impl Spot {
    /// The two lengths to two places, with a blank between them.
    pub open spec fn words(self) -> Seq<char> {
        self.x.written(Places::Two, false) + seq![' '] + self.y.written(Places::Two, false)
    }

    fn written(self) -> (words: String)
        ensures
            words@ == self.words(),
    {
        let mut words: String = self.x.fixed(Places::Two, false);
        words.push(' ');
        words.append(self.y.fixed(Places::Two, false).as_str());
        assert(words@ =~= self.words());
        words
    }
}

/// One line through the points in turn: a move to the first, a line to each of the rest, and
/// a blank after each.
pub open spec fn line_through(points: Seq<Spot>) -> Seq<char>
    decreases points.len(),
{
    if points.len() == 0 {
        Seq::empty()
    } else {
        line_through(points.drop_last()) + seq![
            if points.len() == 1 {
                'M'
            } else {
                'L'
            },
        ] + points.last().words() + seq![' ']
    }
}

pub fn polyline(points: &Vec<Spot>) -> (d: String)
    ensures
        d@ == line_through(points@),
{
    let mut d: String = String::new();
    let mut i: usize = 0;
    assert(d@ =~= line_through(points@.take(0)));
    while i < points.len()
        invariant
            i <= points@.len(),
            d@ == line_through(points@.take(i as int)),
        decreases points@.len() - i,
    {
        d.push(
            if i == 0 {
                'M'
            } else {
                'L'
            },
        );
        d.append(points[i].written().as_str());
        d.push(' ');
        proof {
            let next = points@.take(i as int + 1);
            assert(next.drop_last() =~= points@.take(i as int));
            assert(next.last() == points@[i as int]);
            assert(d@ =~= line_through(next));
        }
        i = i + 1;
    }
    assert(points@.take(points@.len() as int) =~= points@);
    d
}

/// Several lines, one after another.
pub open spec fn lines_through(lines: Seq<Seq<Spot>>) -> Seq<char>
    decreases lines.len(),
{
    if lines.len() == 0 {
        Seq::empty()
    } else {
        lines_through(lines.drop_last()) + line_through(lines.last())
    }
}

/// The points of each line.
pub open spec fn points_of(lines: Seq<Vec<Spot>>) -> Seq<Seq<Spot>> {
    lines.map_values(|line: Vec<Spot>| line@)
}

/// A grid, or a mesh: one path for all of its lines.
pub fn polylines(lines: &Vec<Vec<Spot>>) -> (d: String)
    ensures
        d@ == lines_through(points_of(lines@)),
{
    let mut d: String = String::new();
    let mut i: usize = 0;
    let ghost all = points_of(lines@);
    assert(d@ =~= lines_through(all.take(0)));
    while i < lines.len()
        invariant
            i <= lines@.len(),
            all == points_of(lines@),
            d@ == lines_through(all.take(i as int)),
        decreases lines@.len() - i,
    {
        d.append(polyline(&lines[i]).as_str());
        proof {
            let next = all.take(i as int + 1);
            assert(next.drop_last() =~= all.take(i as int));
            assert(next.last() == lines@[i as int]@);
            assert(d@ =~= lines_through(next));
        }
        i = i + 1;
    }
    assert(all.take(lines@.len() as int) =~= all);
    d
}

/// The boundary of a quad whose corners are listed row by row, so that it runs along the first
/// row, back along the second, and closes.
pub fn outline(corners: &[Spot; 4]) -> (d: String)
    ensures
        d@ == line_through(
            seq![corners@[0], corners@[1], corners@[3], corners@[2], corners@[0]],
        ) + seq!['Z'],
{
    let mut ring: Vec<Spot> = Vec::new();
    ring.push(corners[0]);
    ring.push(corners[1]);
    ring.push(corners[3]);
    ring.push(corners[2]);
    ring.push(corners[0]);
    let mut d: String = polyline(&ring);
    assert(ring@ =~= seq![corners@[0], corners@[1], corners@[3], corners@[2], corners@[0]]);
    d.push('Z');
    assert(d@ =~= line_through(ring@) + seq!['Z']);
    d
}

/// The one line from `a` to `b`.
pub open spec fn segment_words(a: Spot, b: Spot) -> Seq<char> {
    seq!['M'] + a.words() + seq![' ', 'L'] + b.words()
}

pub fn segment(a: Spot, b: Spot) -> (d: String)
    ensures
        d@ == segment_words(a, b),
{
    let mut d: String = String::new();
    d.push('M');
    d.append(a.written().as_str());
    d.push(' ');
    d.push('L');
    d.append(b.written().as_str());
    assert(d@ =~= segment_words(a, b));
    d
}

/// A segment is the line through its two ends, but for the blank that would follow another.
pub proof fn law_a_segment_is_a_line_of_two_points(a: Spot, b: Spot)
    ensures
        segment_words(a, b) + seq![' '] == line_through(seq![a, b]),
{
    let two = seq![a, b];
    assert(two.drop_last() =~= seq![a]);
    assert(seq![a].drop_last() =~= Seq::<Spot>::empty());
    assert(line_through(Seq::<Spot>::empty()) =~= Seq::<char>::empty());
    assert(line_through(seq![a]) =~= seq!['M'] + a.words() + seq![' ']);
    assert(line_through(two) =~= segment_words(a, b) + seq![' ']);
}

/// A point is said by its two lengths, across before down, each to two places.
pub proof fn law_a_point_is_said_across_before_down(p: Spot)
    ensures
        ({
            let across = p.x.written(Places::Two, false);
            let down = p.y.written(Places::Two, false);
            &&& p.words().len() == across.len() + 1 + down.len()
            &&& p.words().take(across.len() as int) == across
            &&& p.words()[across.len() as int] == ' '
            &&& p.words().skip(across.len() as int + 1) == down
        }),
{
    let across = p.x.written(Places::Two, false);
    let down = p.y.written(Places::Two, false);
    assert(p.words().take(across.len() as int) =~= across);
    assert(p.words().skip(across.len() as int + 1) =~= down);
}

/// A line starts with a move to its first point and goes on with a line to each of the rest: what
/// is drawn of a longer line begins with what is drawn of a shorter one.
pub proof fn law_a_line_moves_once_and_then_goes_on(points: Seq<Spot>, p: Spot)
    ensures
        line_through(Seq::<Spot>::empty()) == Seq::<char>::empty(),
        line_through(seq![p]) == seq!['M'] + p.words() + seq![' '],
        points.len() > 0 ==> line_through(points.push(p)) == line_through(points) + seq!['L']
            + p.words() + seq![' '],
        points.len() > 0 ==> line_through(points).len() > 0 && line_through(points)[0] == 'M',
    decreases points.len(),
{
    assert(seq![p].drop_last() =~= Seq::<Spot>::empty());
    assert(line_through(Seq::<Spot>::empty()) =~= Seq::<char>::empty());
    assert(line_through(seq![p]) =~= seq!['M'] + p.words() + seq![' ']);
    assert(points.push(p).drop_last() =~= points);
    if points.len() > 0 {
        let rest = points.drop_last();
        law_a_line_moves_once_and_then_goes_on(rest, points.last());
        assert(rest.push(points.last()) =~= points);
        if points.len() == 1 {
            assert(points =~= seq![points.last()]);
        }
    }
}

/// Several lines are drawn one after another, each as it would be alone.
pub proof fn law_lines_are_drawn_one_after_another(lines: Seq<Seq<Spot>>, line: Seq<Spot>)
    ensures
        lines_through(Seq::<Seq<Spot>>::empty()) == Seq::<char>::empty(),
        lines_through(lines.push(line)) == lines_through(lines) + line_through(line),
{
    assert(lines.push(line).drop_last() =~= lines);
}

} // verus!
