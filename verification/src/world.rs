//! The world: the owner of all bodies and the driver of a simulation
//! tick.
//!
//! A [`World`] owns static boundary lines and dynamic rectangles. One call
//! of [`World::run`] advances the world by `time` ticks of a second
//! through a fixed sequence of states: integrate every dynamic body,
//! detect contacts of dynamic bodies against static ones (a
//! circumscribed-circle pre-filter, then the separating-axis test),
//! resolve those contacts in LIFO order, detect and resolve contacts
//! among the dynamic bodies the same way, and finally commit every
//! dynamic body's tentative state. The whole tick is stated as the
//! mathematical function [`run_views`] over the bodies' observable
//! states.

use vstd::pervasive::VecAdditionalExecFns;
use vstd::prelude::*;

use crate::collision::{divide_views, energy_views, Collision};
use crate::fx::{spec_fx_mul, spec_fx_neg, spec_fx_sub, FX_ONE};
use crate::line::{line_view, Line};
use crate::rectangle::{rect_vertices, Rectangle};
use crate::sat::sat_views;
use crate::traits::{
    circles_overlap, commit_view, spec_inverse_of, tracer_view, BodyView, MoveInterface,
    ObjectInterface,
};
use crate::vec2d::Vec2D;

verus! {

/// The observable states of a sequence of static lines.
pub open spec fn line_views(s: Seq<Line>) -> Seq<BodyView> {
    s.map_values(|l: Line| l.obj())
}

/// The observable states of a sequence of dynamic rectangles.
pub open spec fn rect_views(s: Seq<Rectangle>) -> Seq<BodyView> {
    s.map_values(|r: Rectangle| r.obj())
}

/// Every dynamic body after one integration step.
pub open spec fn integrate_views(ds: Seq<BodyView>, time: i64) -> Seq<BodyView> {
    ds.map_values(|b: BodyView| tracer_view(b, time))
}

/// The contact record for the pair `(object1, object2)` out of a
/// narrow-phase result.
pub open spec fn contact_of(object1: int, object2: int, found: (i64, Vec2D, Vec2D)) -> Collision {
    Collision {
        object1: object1 as usize,
        object2: object2 as usize,
        min_overlap: found.0,
        smallest_axis: found.1,
        contact_vertex: found.2,
    }
}

/// Contacts of dynamic body `i` against the first `n` static bodies, in
/// detection order: pairs that pass the circle pre-filter and the
/// narrow phase.
pub open spec fn static_contacts_row(
    ds: Seq<BodyView>,
    ss: Seq<BodyView>,
    i: int,
    n: int,
) -> Seq<Collision>
    decreases n,
{
    if n <= 0 {
        Seq::empty()
    } else {
        let pre = static_contacts_row(ds, ss, i, n - 1);
        if circles_overlap(ds[i], ss[n - 1]) && sat_views(ds[i], ss[n - 1]) is Some {
            pre.push(contact_of(i, n - 1, sat_views(ds[i], ss[n - 1])->Some_0))
        } else {
            pre
        }
    }
}

/// Contacts of the first `i` dynamic bodies against all static bodies.
pub open spec fn static_contacts_rows(
    ds: Seq<BodyView>,
    ss: Seq<BodyView>,
    i: int,
) -> Seq<Collision>
    decreases i,
{
    if i <= 0 {
        Seq::empty()
    } else {
        static_contacts_rows(ds, ss, i - 1) + static_contacts_row(ds, ss, i - 1, ss.len() as int)
    }
}

/// All dynamic-against-static contacts of this tick.
pub open spec fn static_contacts(ds: Seq<BodyView>, ss: Seq<BodyView>) -> Seq<Collision> {
    static_contacts_rows(ds, ss, ds.len() as int)
}

/// Contacts of dynamic body `i` against dynamic bodies `i + 1 .. n`.
pub open spec fn dynamic_contacts_row(ds: Seq<BodyView>, i: int, n: int) -> Seq<Collision>
    decreases n - i,
{
    if n <= i + 1 {
        Seq::empty()
    } else {
        let pre = dynamic_contacts_row(ds, i, n - 1);
        if circles_overlap(ds[i], ds[n - 1]) && sat_views(ds[i], ds[n - 1]) is Some {
            pre.push(contact_of(i, n - 1, sat_views(ds[i], ds[n - 1])->Some_0))
        } else {
            pre
        }
    }
}

/// Contacts among the first `i` dynamic bodies, over unordered pairs.
pub open spec fn dynamic_contacts_rows(ds: Seq<BodyView>, i: int) -> Seq<Collision>
    decreases i,
{
    if i <= 0 {
        Seq::empty()
    } else {
        dynamic_contacts_rows(ds, i - 1) + dynamic_contacts_row(ds, i - 1, ds.len() as int)
    }
}

/// All dynamic-against-dynamic contacts of this tick.
pub open spec fn dynamic_contacts(ds: Seq<BodyView>) -> Seq<Collision> {
    dynamic_contacts_rows(ds, ds.len() as int)
}

/// One contact resolved: positional separation, then the velocity
/// impulse.
pub open spec fn resolve_pair(b1: BodyView, b2: BodyView, c: Collision) -> (BodyView, BodyView) {
    let (p1, p2) = divide_views(b1, b2, c.min_overlap, c.smallest_axis);
    energy_views(p1, p2, c.smallest_axis, c.contact_vertex)
}

/// The contact stack of the static phase resolved in LIFO order.
pub open spec fn resolve_static_contacts(
    ds: Seq<BodyView>,
    ss: Seq<BodyView>,
    cs: Seq<Collision>,
) -> (Seq<BodyView>, Seq<BodyView>)
    decreases cs.len(),
{
    if cs.len() == 0 {
        (ds, ss)
    } else {
        let c = cs.last();
        let (d2, s2) = resolve_pair(ds[c.object1 as int], ss[c.object2 as int], c);
        resolve_static_contacts(
            ds.update(c.object1 as int, d2),
            ss.update(c.object2 as int, s2),
            cs.drop_last(),
        )
    }
}

/// The contact stack of the dynamic phase resolved in LIFO order.
pub open spec fn resolve_dynamic_contacts(
    ds: Seq<BodyView>,
    cs: Seq<Collision>,
) -> Seq<BodyView>
    decreases cs.len(),
{
    if cs.len() == 0 {
        ds
    } else {
        let c = cs.last();
        let (d1, d2) = resolve_pair(ds[c.object1 as int], ds[c.object2 as int], c);
        resolve_dynamic_contacts(
            ds.update(c.object1 as int, d1).update(c.object2 as int, d2),
            cs.drop_last(),
        )
    }
}

/// Every dynamic body committed: corners refreshed from the tentative
/// state, which then becomes current.
pub open spec fn commit_views(ds: Seq<BodyView>) -> Seq<BodyView> {
    ds.map_values(
        |b: BodyView|
            commit_view(b, rect_vertices(b.position_potential, b.direction, b.size)),
    )
}

/// One whole simulation tick over the observable states: integrate,
/// detect and resolve dynamic-against-static contacts, detect and
/// resolve dynamic-against-dynamic contacts, commit.
pub open spec fn run_views(ds: Seq<BodyView>, ss: Seq<BodyView>, time: i64) -> (
    Seq<BodyView>,
    Seq<BodyView>,
) {
    let integrated = integrate_views(ds, time);
    let (after_static, ss2) = resolve_static_contacts(
        integrated,
        ss,
        static_contacts(integrated, ss),
    );
    let after_dynamic = resolve_dynamic_contacts(
        after_static,
        dynamic_contacts(after_static),
    );
    (commit_views(after_dynamic), ss2)
}

/// With no dynamic bodies a tick is a no-op: nothing is integrated, no
/// contact can arise, and the whole world comes out as it went in.
pub proof fn lemma_run_views_empty(ss: Seq<BodyView>, time: i64)
    ensures
        run_views(Seq::<BodyView>::empty(), ss, time).0 == Seq::<BodyView>::empty(),
        run_views(Seq::<BodyView>::empty(), ss, time).1 == ss,
{
    let nobody = Seq::<BodyView>::empty();
    assert(integrate_views(nobody, time) =~= nobody);
    assert(static_contacts(nobody, ss) =~= Seq::<Collision>::empty());
    assert(resolve_static_contacts(nobody, ss, Seq::<Collision>::empty()) == (nobody, ss));
    assert(dynamic_contacts(nobody) =~= Seq::<Collision>::empty());
    assert(commit_views(nobody) =~= nobody);
}

/// Immovable bodies absorb no correction: with zero mass and zero
/// inertia, resolving any contact stack leaves the static side
/// unchanged.
proof fn lemma_resolve_static_fixed(ds: Seq<BodyView>, ss: Seq<BodyView>, cs: Seq<Collision>)
    requires
        forall|j: int| 0 <= j < ss.len() ==> (#[trigger] ss[j]).mass == 0 && ss[j].inertia == 0,
        forall|k: int| 0 <= k < cs.len() ==> (#[trigger] cs[k]).object2 < ss.len(),
    ensures
        resolve_static_contacts(ds, ss, cs).1 == ss,
    decreases cs.len(),
{
    if cs.len() > 0 {
        let c = cs.last();
        let i1 = c.object1 as int;
        let i2 = c.object2 as int;
        assert(cs[cs.len() - 1].object2 < ss.len());
        let resolved = resolve_pair(ds[i1], ss[i2], c);
        {
            let s = ss[i2];
            assert(spec_inverse_of(s.mass) == 0);
            assert(spec_inverse_of(s.inertia) == 0);
            assert(spec_fx_neg(0i64) == 0i64);
            assert(forall|v: Vec2D| #[trigger] v.spec_mul_n(0i64) == (Vec2D { x: 0i64, y: 0i64 }));
            assert(forall|v: Vec2D| #[trigger] v.spec_add(Vec2D { x: 0i64, y: 0i64 }) == v);
            assert(forall|a: i64| #[trigger] spec_fx_mul(0i64, a) == 0i64);
            assert(forall|a: i64| #[trigger] spec_fx_sub(a, 0i64) == a);
            assert(divide_views(ds[i1], s, c.min_overlap, c.smallest_axis).1 == s);
            assert(resolved.1 == s);
            assert(ss.update(i2, resolved.1) =~= ss);
        }
        assert(forall|k: int|
            0 <= k < cs.drop_last().len() ==> (#[trigger] cs.drop_last()[k]) == cs[k]);
        lemma_resolve_static_fixed(ds.update(i1, resolved.0), ss, cs.drop_last());
        assert(resolve_static_contacts(ds.update(i1, resolved.0), ss.update(i2, resolved.1), cs.drop_last()).1 == ss);
    }
}

/// One candidate pair of the detection sweep: the circle pre-filter,
/// then the narrow phase, wrapped into a contact record for the pair
/// `(i, j)` when both pass.
fn probe_pair<A: MoveInterface, B: ObjectInterface>(body: &A, other: &B, i: usize, j: usize) -> (r:
    Option<Collision>)
    ensures
        r is Some <==> circles_overlap(body.obj(), other.obj()) && sat_views(
            body.obj(),
            other.obj(),
        ) is Some,
        r is Some ==> r->Some_0 == contact_of(
            i as int,
            j as int,
            sat_views(body.obj(), other.obj())->Some_0,
        ),
{
    if body.intersection_circumscribed_circles(other) {
        match body.sat(other) {
            Some(found) => Some(Collision::new(i, j, found)),
            None => None,
        }
    } else {
        None
    }
}

/// The world map on which objects exist and interact: static boundaries
/// and the dynamic bodies moving among them.
pub struct World {
    objects: Vec<Line>,
    dyn_objects: Vec<Rectangle>,
}

impl World {
    /// All static bodies are immovable: zero mass and zero inertia, so
    /// no resolution step can move them.
    pub closed spec fn wf(self) -> bool {
        forall|j: int|
            0 <= j < self.objects@.len() ==> (#[trigger] self.objects@[j].obj()).mass == 0
                && self.objects@[j].obj().inertia == 0
    }

    /// The observable states of the static bodies.
    pub closed spec fn static_views(self) -> Seq<BodyView> {
        line_views(self.objects@)
    }

    /// The observable states of the dynamic bodies.
    pub closed spec fn dynamic_views(self) -> Seq<BodyView> {
        rect_views(self.dyn_objects@)
    }

    /// An empty world.
    pub fn new() -> (r: World)
        ensures
            r.static_views() == Seq::<BodyView>::empty(),
            r.dynamic_views() == Seq::<BodyView>::empty(),
            r.wf(),
    {
        let r = World { objects: Vec::new(), dyn_objects: Vec::new() };
        proof {
            assert(r.static_views() =~= Seq::<BodyView>::empty());
            assert(r.dynamic_views() =~= Seq::<BodyView>::empty());
        }
        r
    }

    /// Append a dynamic body; ownership moves to the map.
    pub fn add_dynamic_body(&mut self, body: Rectangle)
        ensures
            final(self).dynamic_views() == old(self).dynamic_views().push(body.obj()),
            final(self).static_views() == old(self).static_views(),
            final(self).wf() == old(self).wf(),
    {
        self.dyn_objects.push(body);
        proof {
            assert(self.dynamic_views() =~= old(self).dynamic_views().push(body.obj()));
        }
    }

    /// How many dynamic bodies the map owns.
    pub fn dynamic_len(&self) -> (r: usize)
        ensures
            r == self.dynamic_views().len(),
    {
        self.dyn_objects.len()
    }

    /// Read access to the dynamic body at `index`.
    pub fn get_dynamic_body(&self, index: usize) -> (r: &Rectangle)
        requires
            index < self.dynamic_views().len(),
        ensures
            r.obj() == self.dynamic_views()[index as int],
    {
        &self.dyn_objects[index]
    }

    /// One integration step for every dynamic body.
    fn integrate_bodies(&mut self, time: i64)
        ensures
            final(self).objects == old(self).objects,
            rect_views(final(self).dyn_objects@) == integrate_views(
                rect_views(old(self).dyn_objects@),
                time,
            ),
    {
        let ghost ds = rect_views(self.dyn_objects@);
        let mut i: usize = 0;
        while i < self.dyn_objects.len()
            invariant
                self.objects == old(self).objects,
                i <= self.dyn_objects@.len(),
                self.dyn_objects@.len() == ds.len(),
                ds == rect_views(old(self).dyn_objects@),
                forall|j: int|
                    i <= j < ds.len() ==> (#[trigger] self.dyn_objects@[j]).obj() == ds[j],
                forall|j: int|
                    0 <= j < i ==> (#[trigger] self.dyn_objects@[j]).obj() == tracer_view(
                        ds[j],
                        time,
                    ),
            decreases ds.len() - i,
        {
            let mut body = self.dyn_objects[i];
            body.tracer(time);
            self.dyn_objects.set(i, body);
            i = i + 1;
        }
        proof {
            assert(rect_views(self.dyn_objects@) =~= integrate_views(ds, time));
        }
    }

    /// Detect the contacts of every dynamic body against every static
    /// body, in order, through the circle pre-filter and the narrow
    /// phase.
    #[verifier::rlimit(100)]
    fn detect_static_contacts(&self) -> (r: Vec<Collision>)
        ensures
            r@ == static_contacts(rect_views(self.dyn_objects@), line_views(self.objects@)),
            forall|k: int|
                0 <= k < r@.len() ==> (#[trigger] r@[k]).object1 < self.dyn_objects@.len()
                    && r@[k].object2 < self.objects@.len(),
    {
        let ghost ds = rect_views(self.dyn_objects@);
        let ghost ss = line_views(self.objects@);
        let mut collisions: Vec<Collision> = Vec::new();
        let mut i: usize = 0;
        while i < self.dyn_objects.len()
            invariant
                ds == rect_views(self.dyn_objects@),
                ss == line_views(self.objects@),
                i <= ds.len(),
                collisions@ == static_contacts_rows(ds, ss, i as int),
                forall|k: int|
                    0 <= k < collisions@.len() ==> (#[trigger] collisions@[k]).object1 < ds.len()
                        && collisions@[k].object2 < ss.len(),
            decreases ds.len() - i,
        {
            let mut j: usize = 0;
            while j < self.objects.len()
                invariant
                    ds == rect_views(self.dyn_objects@),
                    ss == line_views(self.objects@),
                    i < ds.len(),
                    j <= ss.len(),
                    collisions@ == static_contacts_rows(ds, ss, i as int) + static_contacts_row(
                        ds,
                        ss,
                        i as int,
                        j as int,
                    ),
                    forall|k: int|
                        0 <= k < collisions@.len() ==> (#[trigger] collisions@[k]).object1
                            < ds.len() && collisions@[k].object2 < ss.len(),
                decreases ss.len() - j,
            {
                let body = self.dyn_objects[i];
                let obstacle = self.objects[j];
                match probe_pair(&body, &obstacle, i, j) {
                    Some(found) => {
                        collisions.push(found);
                    },
                    None => {},
                }
                proof {
                    assert(collisions@ =~= static_contacts_rows(ds, ss, i as int)
                        + static_contacts_row(ds, ss, i as int, j as int + 1));
                }
                j = j + 1;
            }
            proof {
                assert(collisions@ =~= static_contacts_rows(ds, ss, i as int + 1));
            }
            i = i + 1;
        }
        collisions
    }

    /// Detect the contacts among the dynamic bodies, over unordered
    /// pairs, in order.
    #[verifier::rlimit(100)]
    fn detect_dynamic_contacts(&self) -> (r: Vec<Collision>)
        ensures
            r@ == dynamic_contacts(rect_views(self.dyn_objects@)),
            forall|k: int|
                0 <= k < r@.len() ==> (#[trigger] r@[k]).object1 < r@[k].object2 && r@[k].object2
                    < self.dyn_objects@.len(),
    {
        let ghost ds = rect_views(self.dyn_objects@);
        let mut collisions: Vec<Collision> = Vec::new();
        let mut i: usize = 0;
        while i < self.dyn_objects.len()
            invariant
                ds == rect_views(self.dyn_objects@),
                i <= ds.len(),
                collisions@ == dynamic_contacts_rows(ds, i as int),
                forall|k: int|
                    0 <= k < collisions@.len() ==> (#[trigger] collisions@[k]).object1
                        < collisions@[k].object2 && collisions@[k].object2 < ds.len(),
            decreases ds.len() - i,
        {
            let mut j: usize = i + 1;
            while j < self.dyn_objects.len()
                invariant
                    ds == rect_views(self.dyn_objects@),
                    i < ds.len(),
                    i + 1 <= j <= ds.len(),
                    collisions@ == dynamic_contacts_rows(ds, i as int) + dynamic_contacts_row(
                        ds,
                        i as int,
                        j as int,
                    ),
                    forall|k: int|
                        0 <= k < collisions@.len() ==> (#[trigger] collisions@[k]).object1
                            < collisions@[k].object2 && collisions@[k].object2 < ds.len(),
                decreases ds.len() - j,
            {
                let body = self.dyn_objects[i];
                let other = self.dyn_objects[j];
                match probe_pair(&body, &other, i, j) {
                    Some(found) => {
                        collisions.push(found);
                    },
                    None => {},
                }
                proof {
                    assert(collisions@ =~= dynamic_contacts_rows(ds, i as int)
                        + dynamic_contacts_row(ds, i as int, j as int + 1));
                }
                j = j + 1;
            }
            proof {
                assert(collisions@ =~= dynamic_contacts_rows(ds, i as int + 1));
            }
            i = i + 1;
        }
        collisions
    }

    /// Resolve one contact between a dynamic and a static body.
    fn resolve_contact_static(&mut self, collision: Collision)
        requires
            collision.object1 < old(self).dyn_objects@.len(),
            collision.object2 < old(self).objects@.len(),
        ensures
            final(self).dyn_objects@.len() == old(self).dyn_objects@.len(),
            final(self).objects@.len() == old(self).objects@.len(),
            rect_views(final(self).dyn_objects@) == rect_views(old(self).dyn_objects@).update(
                collision.object1 as int,
                resolve_pair(
                    rect_views(old(self).dyn_objects@)[collision.object1 as int],
                    line_views(old(self).objects@)[collision.object2 as int],
                    collision,
                ).0,
            ),
            line_views(final(self).objects@) == line_views(old(self).objects@).update(
                collision.object2 as int,
                resolve_pair(
                    rect_views(old(self).dyn_objects@)[collision.object1 as int],
                    line_views(old(self).objects@)[collision.object2 as int],
                    collision,
                ).1,
            ),
    {
        let mut body = self.dyn_objects[collision.object1];
        let mut obstacle = self.objects[collision.object2];
        collision.divide_objects(&mut body, &mut obstacle);
        collision.change_energy(&mut body, &mut obstacle);
        self.dyn_objects.set(collision.object1, body);
        self.objects.set(collision.object2, obstacle);
        proof {
            assert(rect_views(self.dyn_objects@) =~= rect_views(old(self).dyn_objects@).update(
                collision.object1 as int,
                body.obj(),
            ));
            assert(line_views(self.objects@) =~= line_views(old(self).objects@).update(
                collision.object2 as int,
                obstacle.obj(),
            ));
        }
    }

    /// Resolve one contact between two dynamic bodies.
    fn resolve_contact_dynamic(&mut self, collision: Collision)
        requires
            collision.object1 < old(self).dyn_objects@.len(),
            collision.object2 < old(self).dyn_objects@.len(),
            collision.object1 != collision.object2,
        ensures
            final(self).objects == old(self).objects,
            final(self).dyn_objects@.len() == old(self).dyn_objects@.len(),
            rect_views(final(self).dyn_objects@) == rect_views(old(self).dyn_objects@).update(
                collision.object1 as int,
                resolve_pair(
                    rect_views(old(self).dyn_objects@)[collision.object1 as int],
                    rect_views(old(self).dyn_objects@)[collision.object2 as int],
                    collision,
                ).0,
            ).update(
                collision.object2 as int,
                resolve_pair(
                    rect_views(old(self).dyn_objects@)[collision.object1 as int],
                    rect_views(old(self).dyn_objects@)[collision.object2 as int],
                    collision,
                ).1,
            ),
    {
        let mut body = self.dyn_objects[collision.object1];
        let mut other = self.dyn_objects[collision.object2];
        collision.divide_objects(&mut body, &mut other);
        collision.change_energy(&mut body, &mut other);
        self.dyn_objects.set(collision.object1, body);
        self.dyn_objects.set(collision.object2, other);
        proof {
            assert(rect_views(self.dyn_objects@) =~= rect_views(old(self).dyn_objects@).update(
                collision.object1 as int,
                body.obj(),
            ).update(collision.object2 as int, other.obj()));
        }
    }

    /// The commit step for every dynamic body.
    fn commit_bodies(&mut self, time: i64)
        ensures
            final(self).objects == old(self).objects,
            rect_views(final(self).dyn_objects@) == commit_views(
                rect_views(old(self).dyn_objects@),
            ),
    {
        let ghost ds = rect_views(self.dyn_objects@);
        let mut i: usize = 0;
        while i < self.dyn_objects.len()
            invariant
                self.objects == old(self).objects,
                i <= self.dyn_objects@.len(),
                self.dyn_objects@.len() == ds.len(),
                ds == rect_views(old(self).dyn_objects@),
                forall|j: int|
                    i <= j < ds.len() ==> (#[trigger] self.dyn_objects@[j]).obj() == ds[j],
                forall|j: int|
                    0 <= j < i ==> (#[trigger] self.dyn_objects@[j]).obj() == commit_view(
                        ds[j],
                        rect_vertices(ds[j].position_potential, ds[j].direction, ds[j].size),
                    ),
            decreases ds.len() - i,
        {
            let mut body = self.dyn_objects[i];
            body.run(time);
            self.dyn_objects.set(i, body);
            i = i + 1;
        }
        proof {
            assert(rect_views(self.dyn_objects@) =~= commit_views(ds));
        }
    }

    /// Advance the simulation by `time` ticks of a second: integrate,
    /// detect and resolve contacts against the static boundaries, then
    /// among the dynamic bodies, and commit — exactly [`run_views`] on
    /// the observable states. With no dynamic bodies a tick changes
    /// nothing. Static bodies of an immovable world (see [`World::wf`])
    /// come out unchanged.
    pub fn run(&mut self, time: i64)
        requires
            time >= 0,
        ensures
            final(self).dynamic_views() == run_views(
                old(self).dynamic_views(),
                old(self).static_views(),
                time,
            ).0,
            final(self).static_views() == run_views(
                old(self).dynamic_views(),
                old(self).static_views(),
                time,
            ).1,
            old(self).wf() ==> final(self).static_views() == old(self).static_views()
                && final(self).wf(),
    {
        let ghost ss0 = line_views(self.objects@);
        self.integrate_bodies(time);
        let ghost ds1 = rect_views(self.dyn_objects@);

        let mut collisions = self.detect_static_contacts();
        let ghost after_static = resolve_static_contacts(ds1, ss0, collisions@);
        while collisions.len() > 0
            invariant
                resolve_static_contacts(
                    rect_views(self.dyn_objects@),
                    line_views(self.objects@),
                    collisions@,
                ) == after_static,
                forall|k: int|
                    0 <= k < collisions@.len() ==> (#[trigger] collisions@[k]).object1
                        < self.dyn_objects@.len() && collisions@[k].object2
                        < self.objects@.len(),
            decreases collisions@.len(),
        {
            let ghost pre = collisions@;
            let collision = collisions.pop().unwrap();
            proof {
                assert(collisions@ == pre.drop_last());
                assert(forall|k: int|
                    0 <= k < collisions@.len() ==> (#[trigger] collisions@[k]) == pre[k]);
            }
            self.resolve_contact_static(collision);
        }
        proof {
            assert(rect_views(self.dyn_objects@) == after_static.0);
            assert(line_views(self.objects@) == after_static.1);
        }

        let ghost ds2 = rect_views(self.dyn_objects@);
        let mut collisions = self.detect_dynamic_contacts();
        let ghost after_dynamic = resolve_dynamic_contacts(ds2, collisions@);
        while collisions.len() > 0
            invariant
                line_views(self.objects@) == after_static.1,
                resolve_dynamic_contacts(rect_views(self.dyn_objects@), collisions@)
                    == after_dynamic,
                forall|k: int|
                    0 <= k < collisions@.len() ==> (#[trigger] collisions@[k]).object1
                        < collisions@[k].object2 && collisions@[k].object2
                        < self.dyn_objects@.len(),
            decreases collisions@.len(),
        {
            let ghost pre = collisions@;
            let collision = collisions.pop().unwrap();
            proof {
                assert(collisions@ == pre.drop_last());
                assert(forall|k: int|
                    0 <= k < collisions@.len() ==> (#[trigger] collisions@[k]) == pre[k]);
            }
            self.resolve_contact_dynamic(collision);
        }

        self.commit_bodies(time);
        proof {
            if old(self).wf() {
                assert forall|j: int| 0 <= j < ss0.len() implies (#[trigger] ss0[j]).mass == 0
                    && ss0[j].inertia == 0 by {
                    assert(ss0[j] == old(self).objects@[j].obj());
                }
                lemma_resolve_static_fixed(ds1, ss0, static_contacts(ds1, ss0));
                assert(line_views(self.objects@) == line_views(old(self).objects@));
                assert forall|j: int|
                    0 <= j < self.objects@.len() implies (#[trigger] self.objects@[j].obj()).mass
                    == 0 && self.objects@[j].obj().inertia == 0 by {
                    assert(line_views(self.objects@)[j] == self.objects@[j].obj());
                    assert(line_views(old(self).objects@)[j] == old(self).objects@[j].obj());
                    assert(old(self).objects@[j].obj().mass == 0);
                }
            }
        }
    }

    /// Surround the world with four static border lines between the
    /// top-left corner `plt` and the bottom-right corner `prb`, each
    /// with zero mass and full restitution.
    pub fn init_map_border(&mut self, plt: Vec2D, prb: Vec2D)
        ensures
            final(self).static_views() == old(self).static_views() + seq![
                line_view(plt, Vec2D { x: prb.x, y: plt.y }, 0, FX_ONE, Vec2D { x: 0, y: 0 }, 0, 0, 0),
                line_view(Vec2D { x: prb.x, y: plt.y }, prb, 0, FX_ONE, Vec2D { x: 0, y: 0 }, 0, 0, 0),
                line_view(prb, Vec2D { x: plt.x, y: prb.y }, 0, FX_ONE, Vec2D { x: 0, y: 0 }, 0, 0, 0),
                line_view(Vec2D { x: plt.x, y: prb.y }, plt, 0, FX_ONE, Vec2D { x: 0, y: 0 }, 0, 0, 0),
            ],
            final(self).dynamic_views() == old(self).dynamic_views(),
            old(self).wf() ==> final(self).wf(),
    {
        let zero = Vec2D::default();
        self.objects.push(Line::new(plt, Vec2D::new(prb.x, plt.y), 0, FX_ONE, zero, 0, 0, 0));
        self.objects.push(Line::new(Vec2D::new(prb.x, plt.y), prb, 0, FX_ONE, zero, 0, 0, 0));
        self.objects.push(Line::new(prb, Vec2D::new(plt.x, prb.y), 0, FX_ONE, zero, 0, 0, 0));
        self.objects.push(Line::new(Vec2D::new(plt.x, prb.y), plt, 0, FX_ONE, zero, 0, 0, 0));
        proof {
            assert(self.static_views() =~= old(self).static_views() + seq![
                line_view(plt, Vec2D { x: prb.x, y: plt.y }, 0, FX_ONE, Vec2D { x: 0, y: 0 }, 0, 0, 0),
                line_view(Vec2D { x: prb.x, y: plt.y }, prb, 0, FX_ONE, Vec2D { x: 0, y: 0 }, 0, 0, 0),
                line_view(prb, Vec2D { x: plt.x, y: prb.y }, 0, FX_ONE, Vec2D { x: 0, y: 0 }, 0, 0, 0),
                line_view(Vec2D { x: plt.x, y: prb.y }, plt, 0, FX_ONE, Vec2D { x: 0, y: 0 }, 0, 0, 0),
            ]);
        }
    }
}

impl Default for World {
    /// An empty world.
    fn default() -> (r: Self)
        ensures
            r.static_views() == Seq::<BodyView>::empty(),
            r.dynamic_views() == Seq::<BodyView>::empty(),
            r.wf(),
    {
        World::new()
    }
}

} // verus!
