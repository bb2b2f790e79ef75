//! The bounce budget of the radiance integrator.
//!
//! A camera ray is followed from surface to surface. At each level the scene
//! is intersected and the material either scatters the ray on or absorbs it,
//! until the ray leaves the scene or the budget of bounces is spent. `Path`
//! holds that control state as an explicit loop; the colour arithmetic is the
//! caller's: the attenuations of the scattering surfaces multiply the colour
//! at which the path ends.
use vstd::prelude::*;

verus! {

/// What one intersection of the scene reported.
#[derive(Clone, Copy, Debug, PartialEq, Eq, Structural)]
pub enum Surface {
    /// The ray met no primitive.
    Miss,
    /// The ray met a primitive whose material absorbed it.
    Absorbed,
    /// The ray met a primitive whose material sent it on.
    Scattered,
}

/// The colour at which a path ends.
#[derive(Clone, Copy, Debug, PartialEq, Eq, Structural)]
pub enum Terminal {
    /// No light: the budget was spent or the ray was absorbed.
    Black,
    /// The background gradient, taken along the last ray's direction.
    Sky,
}

/// How a path that started with `depth` bounces ends, given what the
/// intersections along it reported in order; `None` while it goes on.
pub open spec fn path_end(depth: int, events: Seq<Surface>) -> Option<Terminal>
    decreases events.len(),
{
    if depth <= 0 {
        Some(Terminal::Black)
    } else if events.len() == 0 {
        None
    } else {
        match events[0] {
            Surface::Miss => Some(Terminal::Sky),
            Surface::Absorbed => Some(Terminal::Black),
            Surface::Scattered => path_end(depth - 1, events.drop_first()),
        }
    }
}

/// How a path ends on the next report when it has `rest` bounces left.
pub open spec fn bounce_end(rest: int, s: Surface) -> Option<Terminal> {
    match s {
        Surface::Miss => Some(Terminal::Sky),
        Surface::Absorbed => Some(Terminal::Black),
        Surface::Scattered => if rest <= 1 {
            Some(Terminal::Black)
        } else {
            None
        },
    }
}

/// With no bounce left a path is black, whatever the scene holds.
pub proof fn lemma_spent_budget_is_black(depth: int, events: Seq<Surface>)
    requires
        depth <= 0,
    ensures
        path_end(depth, events) == Some(Terminal::Black),
{
}

/// A path has ended by the time it has been intersected `depth` times.
pub proof fn lemma_path_ends_within_budget(depth: int, events: Seq<Surface>)
    requires
        events.len() >= depth,
    ensures
        path_end(depth, events) is Some,
    decreases events.len(),
{
    if depth > 0 && events[0] == Surface::Scattered {
        lemma_path_ends_within_budget(depth - 1, events.drop_first());
    }
}

/// A path still going on after `events` ends on the next report alone, with
/// the bounces it has left.
proof fn lemma_path_end_push(depth: int, events: Seq<Surface>, s: Surface)
    requires
        path_end(depth, events) is None,
    ensures
        depth - events.len() > 0,
        path_end(depth, events.push(s)) == bounce_end(depth - events.len(), s),
    decreases events.len(),
{
    if events.len() > 0 {
        assert(events.push(s).drop_first() == events.drop_first().push(s));
        lemma_path_end_push(depth - 1, events.drop_first(), s);
    } else {
        assert(events.push(s) == seq![s]);
        assert(seq![s].drop_first() == Seq::<Surface>::empty());
        assert(path_end(depth - 1, Seq::<Surface>::empty()) == bounce_end(depth, Surface::Scattered));
    }
}

/// The state of one path through the scene.
pub struct Path {
    remaining: i16,
    end: Option<Terminal>,
    depth: Ghost<int>,
    events: Ghost<Seq<Surface>>,
}

impl Path {
    /// The bounce budget the path started with.
    pub closed spec fn depth(self) -> int {
        self.depth@
    }

    /// What the intersections along the path have reported so far.
    pub closed spec fn events(self) -> Seq<Surface> {
        self.events@
    }

    pub closed spec fn wf(self) -> bool {
        &&& self.end == path_end(self.depth@, self.events@)
        &&& self.end is None ==> self.remaining == self.depth@ - self.events@.len()
    }

    /// A path with `depth` bounces to spend.
    pub fn new(depth: i16) -> (p: Path)
        ensures
            p.wf(),
            p.depth() == depth,
            p.events() == Seq::<Surface>::empty(),
    {
        let end = if depth <= 0 {
            Some(Terminal::Black)
        } else {
            None
        };
        Path { remaining: depth, end, depth: Ghost(depth as int), events: Ghost(Seq::empty()) }
    }

    /// How the path ends, or `None` while the current ray has still to be
    /// intersected with the scene.
    pub fn end(&self) -> (r: Option<Terminal>)
        requires
            self.wf(),
        ensures
            r == path_end(self.depth(), self.events()),
    {
        self.end
    }

    /// Takes in what intersecting the current ray reported.
    pub fn record(&mut self, s: Surface)
        requires
            old(self).wf(),
            path_end(old(self).depth(), old(self).events()) is None,
        ensures
            final(self).wf(),
            final(self).depth() == old(self).depth(),
            final(self).events() == old(self).events().push(s),
            path_end(final(self).depth(), final(self).events()) == bounce_end(
                old(self).depth() - old(self).events().len(),
                s,
            ),
    {
        proof {
            lemma_path_end_push(self.depth@, self.events@, s);
        }
        let ghost events = self.events@.push(s);
        if self.remaining <= 0 {
            self.end = Some(Terminal::Black);
        } else {
            match s {
                Surface::Miss => {
                    self.end = Some(Terminal::Sky);
                },
                Surface::Absorbed => {
                    self.end = Some(Terminal::Black);
                },
                Surface::Scattered => {
                    self.remaining = self.remaining - 1;
                    if self.remaining <= 0 {
                        self.end = Some(Terminal::Black);
                    }
                },
            }
        }
        self.events = Ghost(events);
    }
}

} // verus!
