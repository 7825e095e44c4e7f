use vstd::prelude::*;
use vstd::arithmetic::div_mod::{
    lemma_fundamental_div_mod,
    lemma_fundamental_div_mod_converse,
    lemma_mod_bound,
};

verus! {

/// The state of one round while it sits in a chamber or in the player's inventory.
///
/// Once a cartridge has fired it stays spent: nothing in this module clears the flag.
#[derive(Debug, Clone, Copy, PartialEq, Eq)]
pub struct Cartridge {
    pub has_fired: bool,
}

/// What a cylinder holds, seen as mathematical values.
pub struct CylinderView {
    pub chambers: Seq<Option<Cartridge>>,
    pub position: int,
}

impl CylinderView {
    /// The cylinder has at least one chamber and one of them sits under the hammer.
    pub open spec fn wf(self) -> bool {
        &&& self.chambers.len() > 0
        &&& 0 <= self.position < self.chambers.len()
    }

    /// The chamber under the hammer.
    pub open spec fn current(self) -> Option<Cartridge> {
        self.chambers[self.position]
    }

    /// The same cylinder with the chamber under the hammer holding `c`.
    pub open spec fn with_current(self, c: Option<Cartridge>) -> CylinderView {
        CylinderView { chambers: self.chambers.update(self.position, c), position: self.position }
    }
}

/// The cylinder of a revolver: one optional cartridge per chamber, and the index of
/// the chamber that is currently under the hammer.
#[derive(Debug)]
pub struct Cylinder {
    cylinders: Vec<Option<Cartridge>>,
    position: usize,
}

impl View for Cylinder {
    type V = CylinderView;

    closed spec fn view(&self) -> CylinderView {
        CylinderView { chambers: self.cylinders@, position: self.position as int }
    }
}

impl Cylinder {
    /// The cylinder's invariant: see `CylinderView::wf`.
    pub open spec fn wf(&self) -> bool {
        self@.wf()
    }

    /// Creates a cylinder with `capacity` chambers, all of them empty, with the first
    /// chamber under the hammer.
    pub fn new(capacity: usize) -> (r: Cylinder)
        requires
            capacity > 0,
        ensures
            r.wf(),
            r@.chambers == Seq::new(capacity as nat, |i: int| None::<Cartridge>),
            r@.position == 0,
    {
        let mut cylinders: Vec<Option<Cartridge>> = Vec::with_capacity(capacity);
        let mut i: usize = 0;
        while i < capacity
            invariant
                i <= capacity,
                cylinders@ == Seq::new(i as nat, |j: int| None::<Cartridge>),
            decreases capacity - i,
        {
            cylinders.push(None);
            i = i + 1;
            assert(cylinders@ =~= Seq::new(i as nat, |j: int| None::<Cartridge>));
        }
        Cylinder { cylinders, position: 0 }
    }

    /// The chamber that is currently under the hammer.
    pub fn current(&self) -> (r: &Option<Cartridge>)
        requires
            self.wf(),
        ensures
            *r == self@.current(),
    {
        &self.cylinders[self.position]
    }

    /// The chamber at `index`.
    pub fn chamber(&self, index: usize) -> (r: &Option<Cartridge>)
        requires
            index < self@.chambers.len(),
        ensures
            *r == self@.chambers[index as int],
    {
        &self.cylinders[index]
    }

    /// A mutable handle on the chamber that is currently under the hammer.
    pub fn current_mut(&mut self) -> (r: &mut Option<Cartridge>)
        requires
            old(self).wf(),
        ensures
            *r == old(self)@.current(),
            final(self)@ == old(self)@.with_current(*final(r)),
            final(self).wf(),
    {
        let pos = self.position;
        &mut self.cylinders[pos]
    }

    /// The number of chambers.
    pub fn capacity(&self) -> (r: usize)
        ensures
            r == self@.chambers.len(),
    {
        self.cylinders.len()
    }

    /// How many chambers past the hammer chamber `index` sits, counting in the
    /// direction of rotation: 0 for the chamber under the hammer.
    pub fn slot_offset(&self, index: usize) -> (r: usize)
        requires
            self.wf(),
            index < self@.chambers.len(),
        ensures
            r == (index as int - self@.position) % (self@.chambers.len() as int),
            r < self@.chambers.len(),
    {
        let capacity = self.cylinders.len();
        if index >= self.position {
            let r: usize = index - self.position;
            proof {
                lemma_fundamental_div_mod_converse(index as int - self.position as int, capacity as int, 0, r as int);
            }
            r
        } else {
            let r: usize = index + (capacity - self.position);
            proof {
                lemma_fundamental_div_mod_converse(index as int - self.position as int, capacity as int, -1, r as int);
            }
            r
        }
    }

    /// The index of the chamber that is currently under the hammer.
    pub fn position(&self) -> (r: usize)
        ensures
            r == self@.position,
    {
        self.position
    }
}

/// Number of chambers in the revolver's cylinder.
pub const REVOLVER_CAPACITY: usize = 6;

/// Time the cylinder takes to turn to its next chamber, in microseconds.
pub const CYLINDER_ROTATION_MICROS: u64 = 100_000;

/// A rotation of the cylinder in flight.
///
/// The cylinder's position does not change while the rotation runs: it jumps to
/// `end_pos` once more than `target_time` microseconds have passed. Until then
/// `time / target_time * direction` is the fraction of a chamber by which the
/// cylinder is drawn turned.
#[derive(Debug, Clone, Copy, PartialEq, Eq)]
pub struct CylinderTween {
    /// Microseconds since the rotation started.
    pub time: u64,
    /// Duration of the rotation in microseconds.
    pub target_time: u64,
    /// Chamber that will be under the hammer when the rotation ends.
    pub end_pos: usize,
    /// Sign of the requested rotation: -1, 0 or 1.
    pub direction: isize,
}

/// The sign of an integer.
pub open spec fn sign(x: int) -> int {
    if x > 0 {
        1
    } else if x < 0 {
        -1
    } else {
        0
    }
}

/// The chamber reached from chamber `position` by turning `rotation` steps, on a
/// cylinder of `capacity` chambers.
pub open spec fn turned(position: int, rotation: int, capacity: int) -> int {
    (position + rotation) % capacity
}

/// The firing mechanism of a revolver, seen as mathematical values.
pub struct RevolverView {
    pub cylinder: CylinderView,
    pub tween: Option<CylinderTween>,
    pub is_cocked: bool,
}

impl RevolverView {
    /// The cylinder is well formed and a rotation in flight ends on one of its chambers.
    pub open spec fn wf(self) -> bool {
        &&& self.cylinder.wf()
        &&& match self.tween {
            Some(t) => {
                &&& t.end_pos < self.cylinder.chambers.len()
                &&& t.time <= t.target_time
                &&& t.target_time == CYLINDER_ROTATION_MICROS
                &&& -1 <= t.direction <= 1
            },
            None => true,
        }
    }

    /// The hammer is cocked over an unfired cartridge.
    pub open spec fn can_fire(self) -> bool {
        &&& self.is_cocked
        &&& self.cylinder.current() matches Some(c)
        &&& !c.has_fired
    }

    /// The state after the trigger is pulled, and whether a round went off.
    ///
    /// With the hammer down nothing happens. Otherwise the hammer falls, and the
    /// cartridge under it fires if it is there and unfired.
    pub open spec fn fired(self) -> (RevolverView, bool) {
        if !self.is_cocked {
            (self, false)
        } else if self.can_fire() {
            (
                RevolverView {
                    cylinder: self.cylinder.with_current(Some(Cartridge { has_fired: true })),
                    tween: self.tween,
                    is_cocked: false,
                },
                true,
            )
        } else {
            (RevolverView { cylinder: self.cylinder, tween: self.tween, is_cocked: false }, false)
        }
    }

    /// The state after a rotation by `rotation` chambers is requested: ignored while
    /// another rotation is in flight, otherwise a new rotation starts.
    pub open spec fn rotated(self, rotation: int) -> RevolverView {
        if self.tween is Some {
            self
        } else {
            RevolverView {
                cylinder: self.cylinder,
                tween: Some(
                    CylinderTween {
                        time: 0,
                        target_time: CYLINDER_ROTATION_MICROS,
                        end_pos: turned(
                            self.cylinder.position,
                            rotation,
                            self.cylinder.chambers.len() as int,
                        ) as usize,
                        direction: sign(rotation) as isize,
                    },
                ),
                is_cocked: self.is_cocked,
            }
        }
    }

    /// The state after the hammer is pulled back: cocking also turns the cylinder
    /// by one chamber. An already cocked hammer stays as it is.
    pub open spec fn hammer_pulled(self) -> RevolverView {
        if self.is_cocked {
            self
        } else {
            RevolverView { cylinder: self.cylinder, tween: self.tween, is_cocked: true }.rotated(1)
        }
    }

    /// The state after `c` is offered to the chamber under the hammer, and the outcome:
    /// an empty chamber takes it, an occupied one hands it back.
    pub open spec fn loaded(self, c: Cartridge) -> (RevolverView, Result<(), Cartridge>) {
        if self.cylinder.current() is Some {
            (self, Err(c))
        } else {
            (
                RevolverView {
                    cylinder: self.cylinder.with_current(Some(c)),
                    tween: self.tween,
                    is_cocked: self.is_cocked,
                },
                Ok(()),
            )
        }
    }

    /// The state after `dt` microseconds: a rotation in flight advances, and once its
    /// time exceeds its duration the cylinder snaps to the rotation's end.
    pub open spec fn advanced(self, dt: int) -> RevolverView {
        match self.tween {
            None => self,
            Some(t) => if t.time + dt > t.target_time {
                RevolverView {
                    cylinder: CylinderView {
                        chambers: self.cylinder.chambers,
                        position: t.end_pos as int,
                    },
                    tween: None,
                    is_cocked: self.is_cocked,
                }
            } else {
                RevolverView {
                    cylinder: self.cylinder,
                    tween: Some(CylinderTween { time: (t.time + dt) as u64, ..t }),
                    is_cocked: self.is_cocked,
                }
            },
        }
    }
}

/// One operation on the firing mechanism, for reasoning about sequences of them.
pub enum MechanismStep {
    PullHammer,
    Fire,
    Rotate(int),
    Load(Cartridge),
    Advance(nat),
}

impl RevolverView {
    /// The state after one operation.
    pub open spec fn step(self, e: MechanismStep) -> RevolverView {
        match e {
            MechanismStep::PullHammer => self.hammer_pulled(),
            MechanismStep::Fire => self.fired().0,
            MechanismStep::Rotate(rotation) => self.rotated(rotation),
            MechanismStep::Load(c) => self.loaded(c).0,
            MechanismStep::Advance(dt) => self.advanced(dt as int),
        }
    }

    /// The state after a sequence of operations, applied in order.
    pub open spec fn run(self, steps: Seq<MechanismStep>) -> RevolverView
        decreases steps.len(),
    {
        if steps.len() == 0 {
            self
        } else {
            self.step(steps[0]).run(steps.drop_first())
        }
    }
}

/// Every operation keeps the mechanism well formed and its number of chambers.
pub proof fn lemma_step_keeps_wf(s: RevolverView, e: MechanismStep)
    requires
        s.wf(),
    ensures
        s.step(e).wf(),
        s.step(e).cylinder.chambers.len() == s.cylinder.chambers.len(),
{
    if let MechanismStep::Rotate(rotation) = e {
        lemma_mod_bound(s.cylinder.position + rotation, s.cylinder.chambers.len() as int);
    }
    if let MechanismStep::PullHammer = e {
        lemma_mod_bound(s.cylinder.position + 1, s.cylinder.chambers.len() as int);
    }
}

/// Whatever operations are applied, in whatever order (rotations requested while
/// another is in flight, trigger pulls, loads, time passing in any increments), the
/// chamber under the hammer stays one of the cylinder's chambers, before, during and
/// after each rotation.
pub proof fn lemma_position_in_range(s: RevolverView, steps: Seq<MechanismStep>)
    requires
        s.wf(),
    ensures
        s.run(steps).wf(),
        s.run(steps).cylinder.chambers.len() == s.cylinder.chambers.len(),
        0 <= s.run(steps).cylinder.position < s.cylinder.chambers.len(),
    decreases steps.len(),
{
    if steps.len() > 0 {
        lemma_step_keeps_wf(s, steps[0]);
        lemma_position_in_range(s.step(steps[0]), steps.drop_first());
    }
}

/// Loading a cartridge into an empty chamber and at once offering another: the first
/// is taken, the second is handed back as it was, and the revolver stays as the first
/// load left it.
pub proof fn lemma_second_load_refused(s: RevolverView, first: Cartridge, second: Cartridge)
    requires
        s.wf(),
        s.cylinder.current() is None,
    ensures
        s.loaded(first).1 == Ok::<(), Cartridge>(()),
        s.loaded(first).0.cylinder.current() == Some(first),
        s.loaded(first).0.loaded(second).1 == Err::<(), Cartridge>(second),
        s.loaded(first).0.loaded(second).0 == s.loaded(first).0,
{
}

/// The chamber reached by turning a cylinder of `capacity` chambers `rotation` steps
/// from `position`, counted modulo the capacity.
fn turned_position(position: usize, capacity: usize, rotation: isize) -> (r: usize)
    requires
        position < capacity,
    ensures
        r == turned(position as int, rotation as int, capacity as int),
        r < capacity,
{
    let ghost p: int = position as int;
    let ghost m: int = capacity as int;
    if rotation >= 0 {
        let k: usize = (rotation as usize) % capacity;
        let r: usize = if k >= capacity - position {
            k - (capacity - position)
        } else {
            position + k
        };
        proof {
            let rot: int = rotation as int;
            lemma_fundamental_div_mod(rot, m);
            let q: int = rot / m;
            if k >= capacity - position {
                assert(p + rot == (q + 1) * m + r) by (nonlinear_arith)
                    requires
                        rot == m * q + k,
                        r == p + k - m,
                ;
                lemma_fundamental_div_mod_converse(p + rot, m, q + 1, r as int);
            } else {
                assert(p + rot == q * m + r) by (nonlinear_arith)
                    requires
                        rot == m * q + k,
                        r == p + k,
                ;
                lemma_fundamental_div_mod_converse(p + rot, m, q, r as int);
            }
        }
        r
    } else {
        let magnitude: usize = ((-(rotation + 1)) as usize) + 1;
        let k: usize = magnitude % capacity;
        let r: usize = if k <= position {
            position - k
        } else {
            position + (capacity - k)
        };
        proof {
            let big: int = magnitude as int;
            assert(big == -(rotation as int));
            lemma_fundamental_div_mod(big, m);
            let q: int = big / m;
            if k <= position {
                assert(p + rotation as int == (-q) * m + r) by (nonlinear_arith)
                    requires
                        big == m * q + k,
                        big == -(rotation as int),
                        r == p - k,
                ;
                lemma_fundamental_div_mod_converse(p + rotation as int, m, -q, r as int);
            } else {
                assert(p + rotation as int == (-q - 1) * m + r) by (nonlinear_arith)
                    requires
                        big == m * q + k,
                        big == -(rotation as int),
                        r == p + m - k,
                ;
                lemma_fundamental_div_mod_converse(p + rotation as int, m, -q - 1, r as int);
            }
        }
        r
    }
}

/// The firing mechanism of a revolver: its cylinder, a rotation of the cylinder that
/// may be in flight, and the hammer.
#[derive(Debug)]
pub struct Revolver {
    cylinder: Cylinder,
    cylinder_tween: Option<CylinderTween>,
    is_cocked: bool,
}

impl View for Revolver {
    type V = RevolverView;

    closed spec fn view(&self) -> RevolverView {
        RevolverView { cylinder: self.cylinder@, tween: self.cylinder_tween, is_cocked: self.is_cocked }
    }
}

impl Revolver {
    /// The mechanism's invariant: see `RevolverView::wf`.
    pub open spec fn wf(&self) -> bool {
        self@.wf()
    }

    /// A revolver with empty chambers, the hammer down and the cylinder at rest with
    /// its first chamber under the hammer.
    pub fn new() -> (r: Revolver)
        ensures
            r.wf(),
            r@.cylinder.chambers == Seq::new(REVOLVER_CAPACITY as nat, |i: int| None::<Cartridge>),
            r@.cylinder.position == 0,
            r@.tween is None,
            !r@.is_cocked,
    {
        Revolver { cylinder: Cylinder::new(REVOLVER_CAPACITY), cylinder_tween: None, is_cocked: false }
    }

    /// Pulls the trigger. Returns `true` when a round went off, in which case the
    /// caller spawns the projectile.
    ///
    /// With the hammer down nothing changes. With the hammer cocked the hammer falls
    /// whatever the chamber holds, and only an unfired cartridge under it fires.
    pub fn fire(&mut self) -> (r: bool)
        requires
            old(self).wf(),
        ensures
            final(self).wf(),
            (final(self)@, r) == old(self)@.fired(),
            r == old(self)@.can_fire(),
            !old(self)@.is_cocked ==> final(self)@ == old(self)@,
            old(self)@.is_cocked ==> !final(self)@.is_cocked,
            old(self)@.is_cocked && old(self)@.cylinder.current() is None ==> final(self)@.cylinder
                == old(self)@.cylinder,
            old(self)@.is_cocked && (old(self)@.cylinder.current() matches Some(c) && c.has_fired)
                ==> final(self)@.cylinder == old(self)@.cylinder,
            r ==> final(self)@.cylinder.current() == Some(Cartridge { has_fired: true }),
    {
        if !self.is_cocked {
            return false;
        }
        self.is_cocked = false;
        match *self.cylinder.current() {
            Some(cartridge) => {
                if !cartridge.has_fired {
                    *self.cylinder.current_mut() = Some(Cartridge { has_fired: true });
                    true
                } else {
                    false
                }
            },
            None => false,
        }
    }

    /// Cocks the hammer, which also starts turning the cylinder by one chamber.
    /// Does nothing when the hammer is already cocked.
    pub fn pull_hammer(&mut self)
        requires
            old(self).wf(),
        ensures
            final(self).wf(),
            final(self)@ == old(self)@.hammer_pulled(),
            final(self)@.is_cocked,
    {
        if !self.is_cocked {
            self.is_cocked = true;
            self.rotate_cylinder(1);
        }
    }

    /// Starts turning the cylinder by `rotation` chambers, modulo its capacity.
    ///
    /// A request made while another rotation is in flight is dropped. The chamber
    /// under the hammer only changes once the rotation completes.
    pub fn rotate_cylinder(&mut self, rotation: isize)
        requires
            old(self).wf(),
        ensures
            final(self).wf(),
            final(self)@ == old(self)@.rotated(rotation as int),
            final(self)@.cylinder == old(self)@.cylinder,
    {
        if self.cylinder_tween.is_none() {
            let end_pos = turned_position(self.cylinder.position, self.cylinder.capacity(), rotation);
            let direction: isize = if rotation > 0 {
                1
            } else if rotation < 0 {
                -1
            } else {
                0
            };
            self.cylinder_tween = Some(
                CylinderTween { time: 0, target_time: CYLINDER_ROTATION_MICROS, end_pos, direction },
            );
        }
    }

    /// Puts `cartridge` into the chamber under the hammer. An occupied chamber refuses
    /// it and hands it back in `Err`.
    pub fn load_cartridge(&mut self, cartridge: Cartridge) -> (r: Result<(), Cartridge>)
        requires
            old(self).wf(),
        ensures
            final(self).wf(),
            (final(self)@, r) == old(self)@.loaded(cartridge),
            r is Ok <==> old(self)@.cylinder.current() is None,
            r is Err ==> r == Err::<(), Cartridge>(cartridge) && final(self)@ == old(self)@,
            r is Ok ==> final(self)@.cylinder.current() == Some(cartridge),
    {
        if self.cylinder.current().is_some() {
            Err(cartridge)
        } else {
            *self.cylinder.current_mut() = Some(cartridge);
            Ok(())
        }
    }

    /// Lets `dt` microseconds pass for a rotation in flight. Once its time exceeds its
    /// duration the rotation ends and its end chamber comes under the hammer.
    pub fn update_cylinder(&mut self, dt: u64)
        requires
            old(self).wf(),
        ensures
            final(self).wf(),
            final(self)@ == old(self)@.advanced(dt as int),
    {
        match self.cylinder_tween {
            Some(tween) => {
                if dt > tween.target_time - tween.time {
                    self.cylinder.position = tween.end_pos;
                    self.cylinder_tween = None;
                } else {
                    self.cylinder_tween = Some(CylinderTween { time: tween.time + dt, ..tween });
                }
            },
            None => {},
        }
    }

    /// The hammer is cocked over an unfired cartridge, so pulling the trigger fires.
    pub fn can_fire(&self) -> (r: bool)
        requires
            self.wf(),
        ensures
            r == self@.can_fire(),
    {
        self.is_cocked && match *self.cylinder.current() {
            Some(c) => !c.has_fired,
            None => false,
        }
    }

    /// Whether the hammer is cocked.
    pub fn is_cocked(&self) -> (r: bool)
        ensures
            r == self@.is_cocked,
    {
        self.is_cocked
    }

    /// The cylinder and its chambers.
    pub fn cylinder(&self) -> (r: &Cylinder)
        ensures
            r@ == self@.cylinder,
            self.wf() ==> r.wf(),
    {
        &self.cylinder
    }

    /// The rotation of the cylinder in flight, if any.
    pub fn cylinder_tween(&self) -> (r: Option<CylinderTween>)
        ensures
            r == self@.tween,
    {
        self.cylinder_tween
    }
}

} // verus!
