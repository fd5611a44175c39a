//! Projectile and pickup phases: straight-line projectile flight with
//! despawn at the world edge, pickup drift and despawn, and pickup
//! collection by the player.

use vstd::prelude::*;
use crate::collision::{Pickup, PickupKind, Projectile, collide, spec_collide};
use crate::player::PlayerInfo;
use crate::timer::DT_LIMIT;
use crate::units::{MILLI, spec_clamp, lemma_mul_div_bounds};
use crate::vec2::{Vec2i, spec_move_by_dir, move_by_dir};
use crate::world::World;
use crate::config::SPEED_LIMIT;

verus! {

/// One flight step of a projectile.
pub open spec fn spec_step_projectile(p: Projectile, dt: int) -> Projectile {
    Projectile {
        position: spec_move_by_dir(p.position, p.direction, p.speed * dt / (MILLI as int)),
        ..p
    }
}

/// A projectile survives while its position stays inside the world inset
/// by its own collider size.
pub open spec fn spec_projectile_in_bounds(p: Projectile, width: i64, height: i64) -> bool {
    &&& p.collider.size.x <= p.position.x <= width - p.collider.size.x
    &&& p.collider.size.y <= p.position.y <= height - p.collider.size.y
}

/// The projectiles that remain after one flight step: each moves along its
/// direction, and those that leave the world are destroyed, in order.
pub open spec fn spec_surviving_projectiles(
    ps: Seq<Projectile>,
    dt: int,
    width: i64,
    height: i64,
) -> Seq<Projectile>
    decreases ps.len(),
{
    if ps.len() == 0 {
        Seq::empty()
    } else {
        let p2 = spec_step_projectile(ps[0], dt);
        let rest = spec_surviving_projectiles(ps.drop_first(), dt, width, height);
        if spec_projectile_in_bounds(p2, width, height) {
            seq![p2] + rest
        } else {
            rest
        }
    }
}

/// The pickups that remain: one whose position has drifted above the
/// world's top edge by more than its own collider size is destroyed.
pub open spec fn spec_remaining_pickups(ps: Seq<Pickup>, height: i64) -> Seq<Pickup>
    decreases ps.len(),
{
    if ps.len() == 0 {
        Seq::empty()
    } else {
        let rest = spec_remaining_pickups(ps.drop_first(), height);
        if ps[0].position.y > height + ps[0].collider.size.y {
            rest
        } else {
            seq![ps[0]] + rest
        }
    }
}

/// The restore effect of one collected pickup: fuel refills the pool,
/// health restores whole points, each clamped at its maximum.
pub open spec fn spec_apply_pickup(
    info: PlayerInfo,
    p: Pickup,
    capacity: i64,
    max_health: usize,
) -> PlayerInfo {
    match p.kind {
        PickupKind::Fuel => PlayerInfo {
            current_fuel: spec_clamp(info.current_fuel + p.restore, 0, capacity as int) as i64,
            ..info
        },
        PickupKind::Health => PlayerInfo {
            current_hp: if info.current_hp + p.restore > max_health {
                max_health
            } else {
                (info.current_hp + p.restore) as usize
            },
            ..info
        },
    }
}

/// Collection of all pickups overlapping the player, in order: each
/// overlapping pickup applies its restore effect and disappears; the rest
/// survive unchanged.
pub open spec fn spec_collect_pickups(
    info: PlayerInfo,
    ps: Seq<Pickup>,
    player_pos: Vec2i,
    player_size: Vec2i,
    capacity: i64,
    max_health: usize,
) -> (PlayerInfo, Seq<Pickup>)
    decreases ps.len(),
{
    if ps.len() == 0 {
        (info, Seq::empty())
    } else {
        if spec_collide(player_pos, player_size, ps[0].position, ps[0].collider.size) {
            spec_collect_pickups(
                spec_apply_pickup(info, ps[0], capacity, max_health),
                ps.drop_first(),
                player_pos,
                player_size,
                capacity,
                max_health,
            )
        } else {
            let (info2, rest) = spec_collect_pickups(
                info,
                ps.drop_first(),
                player_pos,
                player_size,
                capacity,
                max_health,
            );
            (info2, seq![ps[0]] + rest)
        }
    }
}

impl World {
    /// Flight phase: every projectile advances `speed * dt` along its
    /// direction and despawns on leaving the world.
    pub fn handle_projectiles(&mut self, dt: i64)
        requires
            old(self).wf(),
            0 <= dt <= DT_LIMIT,
        ensures
            final(self).wf(),
            final(self).projectiles@ == spec_surviving_projectiles(
                old(self).projectiles@,
                dt as int,
                old(self).config.world_width,
                old(self).config.world_height,
            ),
            *final(self) == (World { projectiles: final(self).projectiles, ..*old(self) }),
    {
        let width = self.config.world_width;
        let height = self.config.world_height;
        let ghost whole = spec_surviving_projectiles(
            self.projectiles@,
            dt as int,
            width,
            height,
        );
        let n = self.projectiles.len();
        let mut survivors: Vec<Projectile> = Vec::new();
        let mut i: usize = 0;
        proof {
            assert(self.projectiles@.skip(0) =~= self.projectiles@);
            assert(Seq::<Projectile>::empty() + whole =~= whole);
        }
        while i < n
            invariant
                old(self).wf(),
                0 <= dt <= DT_LIMIT,
                width == old(self).config.world_width,
                height == old(self).config.world_height,
                *self == *old(self),
                n == self.projectiles@.len(),
                i <= n,
                whole == spec_surviving_projectiles(
                    self.projectiles@,
                    dt as int,
                    width,
                    height,
                ),
                survivors@ + spec_surviving_projectiles(
                    self.projectiles@.skip(i as int),
                    dt as int,
                    width,
                    height,
                ) == whole,
                forall|k: int| 0 <= k < survivors@.len() ==> (#[trigger] survivors@[k]).wf(),
            decreases n - i,
        {
            let p = self.projectiles[i];
            proof {
                assert(self.projectiles@.skip(i as int).drop_first() =~= self.projectiles@.skip(
                    i as int + 1,
                ));
                assert(self.projectiles@.skip(i as int)[0] == p);
                lemma_mul_div_bounds(
                    p.speed as int,
                    dt as int,
                    SPEED_LIMIT as int,
                    DT_LIMIT as int,
                    MILLI as int,
                );
            }
            let step = p.speed * dt / MILLI;
            let p2 = Projectile { position: move_by_dir(p.position, p.direction, step), ..p };
            let keep = p2.collider.size.x <= p2.position.x && p2.position.x <= width
                - p2.collider.size.x && p2.collider.size.y <= p2.position.y && p2.position.y
                <= height - p2.collider.size.y;
            if keep {
                let ghost pre = survivors@;
                survivors.push(p2);
                proof {
                    let rest = spec_surviving_projectiles(
                        self.projectiles@.skip(i as int + 1),
                        dt as int,
                        width,
                        height,
                    );
                    assert(survivors@ =~= pre + seq![p2]);
                    assert((pre + seq![p2]) + rest =~= pre + (seq![p2] + rest));
                }
            }
            i = i + 1;
        }
        proof {
            assert(self.projectiles@.skip(n as int) =~= Seq::<Projectile>::empty());
            assert(survivors@ + Seq::<Projectile>::empty() =~= survivors@);
        }
        self.projectiles = survivors;
    }

    /// Drift phase: every pickup floats upward at the configured speed.
    pub fn move_pickups_vertically(&mut self, dt: i64)
        requires
            old(self).wf(),
            0 <= dt <= DT_LIMIT,
        ensures
            final(self).wf(),
            final(self).pickups@.len() == old(self).pickups@.len(),
            forall|k: int|
                0 <= k < old(self).pickups@.len() ==> final(self).pickups@[k] == (Pickup {
                    position: spec_move_by_dir(
                        (#[trigger] old(self).pickups@[k]).position,
                        Vec2i { x: 0, y: MILLI },
                        old(self).config.pickup_speed * dt / (MILLI as int),
                    ),
                    ..old(self).pickups@[k]
                }),
            *final(self) == (World { pickups: final(self).pickups, ..*old(self) }),
    {
        proof {
            lemma_mul_div_bounds(
                self.config.pickup_speed as int,
                dt as int,
                SPEED_LIMIT as int,
                DT_LIMIT as int,
                MILLI as int,
            );
        }
        let step = self.config.pickup_speed * dt / MILLI;
        let up = Vec2i { x: 0, y: MILLI };
        let n = self.pickups.len();
        let mut i: usize = 0;
        while i < n
            invariant
                old(self).wf(),
                0 <= step <= crate::vec2::STEP_LIMIT,
                up == (Vec2i { x: 0, y: MILLI }),
                step == old(self).config.pickup_speed * dt / (MILLI as int),
                n == self.pickups@.len(),
                n == old(self).pickups@.len(),
                i <= n,
                *self == (World { pickups: self.pickups, ..*old(self) }),
                forall|k: int| 0 <= k < self.pickups@.len() ==> (#[trigger] self.pickups@[k]).wf(),
                forall|k: int| i <= k < n ==> self.pickups@[k] == old(self).pickups@[k],
                forall|k: int|
                    0 <= k < i ==> self.pickups@[k] == (Pickup {
                        position: spec_move_by_dir(
                            (#[trigger] old(self).pickups@[k]).position,
                            Vec2i { x: 0, y: MILLI },
                            old(self).config.pickup_speed * dt / (MILLI as int),
                        ),
                        ..old(self).pickups@[k]
                    }),
            decreases n - i,
        {
            let p = self.pickups[i];
            let p2 = Pickup { position: move_by_dir(p.position, up, step), ..p };
            self.pickups.set(i, p2);
            i = i + 1;
        }
    }

    /// Despawn phase: pickups that drifted past the top edge disappear.
    pub fn despawn_pickups(&mut self)
        requires
            old(self).wf(),
        ensures
            final(self).wf(),
            final(self).pickups@ == spec_remaining_pickups(
                old(self).pickups@,
                old(self).config.world_height,
            ),
            *final(self) == (World { pickups: final(self).pickups, ..*old(self) }),
    {
        let height = self.config.world_height;
        let ghost whole = spec_remaining_pickups(self.pickups@, height);
        let n = self.pickups.len();
        let mut survivors: Vec<Pickup> = Vec::new();
        let mut i: usize = 0;
        proof {
            assert(self.pickups@.skip(0) =~= self.pickups@);
            assert(Seq::<Pickup>::empty() + whole =~= whole);
        }
        while i < n
            invariant
                old(self).wf(),
                height == old(self).config.world_height,
                *self == *old(self),
                n == self.pickups@.len(),
                i <= n,
                whole == spec_remaining_pickups(self.pickups@, height),
                survivors@ + spec_remaining_pickups(self.pickups@.skip(i as int), height) == whole,
                forall|k: int| 0 <= k < survivors@.len() ==> (#[trigger] survivors@[k]).wf(),
            decreases n - i,
        {
            let p = self.pickups[i];
            proof {
                assert(self.pickups@.skip(i as int).drop_first() =~= self.pickups@.skip(
                    i as int + 1,
                ));
                assert(self.pickups@.skip(i as int)[0] == p);
            }
            if !(p.position.y > height + p.collider.size.y) {
                let ghost pre = survivors@;
                survivors.push(p);
                proof {
                    let rest = spec_remaining_pickups(self.pickups@.skip(i as int + 1), height);
                    assert(survivors@ =~= pre + seq![p]);
                    assert((pre + seq![p]) + rest =~= pre + (seq![p] + rest));
                }
            }
            i = i + 1;
        }
        proof {
            assert(self.pickups@.skip(n as int) =~= Seq::<Pickup>::empty());
            assert(survivors@ + Seq::<Pickup>::empty() =~= survivors@);
        }
        self.pickups = survivors;
    }

    /// Collection phase: every pickup overlapping the player applies its
    /// restore effect (in list order) and disappears; without a live
    /// player nothing happens.
    pub fn check_player_pickup_collision(&mut self)
        requires
            old(self).wf(),
        ensures
            final(self).wf(),
            old(self).player is None ==> *final(self) == *old(self),
            old(self).player is Some ==> {
                let (info2, rest) = spec_collect_pickups(
                    old(self).player_info,
                    old(self).pickups@,
                    old(self).player->Some_0.position,
                    old(self).player->Some_0.collider.size,
                    old(self).config.player_fuel_capacity,
                    old(self).config.player_max_health,
                );
                &&& final(self).player_info == info2
                &&& final(self).pickups@ == rest
                &&& *final(self) == (World {
                    player_info: final(self).player_info,
                    pickups: final(self).pickups,
                    ..*old(self)
                })
            },
    {
        let (ppos, psize) = match &self.player {
            Some(p) => (p.position, p.collider.size),
            None => {
                return ;
            },
        };
        let capacity = self.config.player_fuel_capacity;
        let max_health = self.config.player_max_health;
        let ghost whole = spec_collect_pickups(
            self.player_info,
            self.pickups@,
            ppos,
            psize,
            capacity,
            max_health,
        );
        let n = self.pickups.len();
        let mut survivors: Vec<Pickup> = Vec::new();
        let mut i: usize = 0;
        proof {
            assert(self.pickups@.skip(0) =~= self.pickups@);
            let (info2, rest) = spec_collect_pickups(
                self.player_info,
                self.pickups@,
                ppos,
                psize,
                capacity,
                max_health,
            );
            assert(Seq::<Pickup>::empty() + rest =~= rest);
        }
        while i < n
            invariant
                old(self).wf(),
                old(self).player is Some,
                ppos == old(self).player->Some_0.position,
                psize == old(self).player->Some_0.collider.size,
                capacity == old(self).config.player_fuel_capacity,
                max_health == old(self).config.player_max_health,
                n == self.pickups@.len(),
                i <= n,
                *self == (World { player_info: self.player_info, ..*old(self) }),
                self.player_info.wf(
                    capacity,
                    max_health,
                    old(self).config.chainsaw_heat_limit,
                ),
                ({
                    let (info2, rest) = spec_collect_pickups(
                        self.player_info,
                        self.pickups@.skip(i as int),
                        ppos,
                        psize,
                        capacity,
                        max_health,
                    );
                    whole == (info2, survivors@ + rest)
                }),
                forall|k: int| 0 <= k < survivors@.len() ==> (#[trigger] survivors@[k]).wf(),
            decreases n - i,
        {
            let p = self.pickups[i];
            proof {
                assert(self.pickups@.skip(i as int).drop_first() =~= self.pickups@.skip(
                    i as int + 1,
                ));
                assert(self.pickups@.skip(i as int)[0] == p);
            }
            if collide(ppos, psize, p.position, p.collider.size) {
                match p.kind {
                    PickupKind::Fuel => {
                        crate::player::change_player_fuel(
                            &mut self.player_info,
                            p.restore,
                            capacity,
                        );
                    },
                    PickupKind::Health => {
                        let add = p.restore as usize;
                        let hp = self.player_info.current_hp;
                        let new_hp = if hp + add > max_health {
                            max_health
                        } else {
                            hp + add
                        };
                        self.player_info = PlayerInfo { current_hp: new_hp, ..self.player_info };
                    },
                }
            } else {
                let ghost pre = survivors@;
                survivors.push(p);
                proof {
                    let (info2, rest) = spec_collect_pickups(
                        self.player_info,
                        self.pickups@.skip(i as int + 1),
                        ppos,
                        psize,
                        capacity,
                        max_health,
                    );
                    assert(survivors@ =~= pre + seq![p]);
                    assert((pre + seq![p]) + rest =~= pre + (seq![p] + rest));
                }
            }
            i = i + 1;
        }
        proof {
            assert(self.pickups@.skip(n as int) =~= Seq::<Pickup>::empty());
            assert(survivors@ + Seq::<Pickup>::empty() =~= survivors@);
        }
        self.pickups = survivors;
    }
}

} // verus!
