//! The shooter's weapons: how they look in hand and in the air, how fast
//! they strike, and what their shots and blows do.
use vstd::prelude::*;
use crate::layers::CollisionLayerBits;
use crate::miami::{MiamiEntity, Offset3, PixelRect};

verus! {

/// The kinds of weapons.
#[derive(Clone, Copy, PartialEq, Eq, Debug, Structural)]
pub enum WeaponType {
    Pistol,
    Axe,
    Baguette,
    EnemyFists,
    /// Bonnie's own weapon.
    BonniePlay,
    /// Chicka's own weapon.
    ChickaThrow,
    /// Freddy's own weapon.
    FazStar,
}

impl Default for WeaponType {
    fn default() -> (r: Self)
        ensures
            r == WeaponType::Pistol,
    {
        WeaponType::Pistol
    }
}

/// A weapon: its sprites on the floor, in hand and while striking, the
/// sprites of the character holding it, its ammunition, its rhythm in
/// milliseconds and what its shots do.
#[derive(Clone, Copy, PartialEq, Eq, Debug, Structural)]
pub struct Weapon {
    pub rect: PixelRect,
    pub held_rect: PixelRect,
    pub held_offset: Offset3,
    pub attack_rect: PixelRect,
    pub attack_offset: Offset3,
    pub char_rect: PixelRect,
    pub char_offset: Offset3,
    pub attack_char_rect: PixelRect,
    pub attack_char_offset: Offset3,
    pub ammo: u32,
    pub cooldown_ms: u32,
    pub anim_time_ms: u32,
    pub damage: u32,
    pub ttl_ms: u32,
    pub piercing: u32,
    pub projectile_speed: u32,
    pub throw_damage: u32,
    pub weapon_type: WeaponType,
}

/// The enemies' slow blows, under the kind `kind`: the fists, and the
/// bosses' own weapons, which strike with the same reach and rhythm.
pub open spec fn spec_fists_of(kind: WeaponType) -> Weapon {
    Weapon {
        rect: PixelRect { min_x: 0, min_y: 0, max_x: 0, max_y: 0 },
        held_rect: PixelRect { min_x: 0, min_y: 0, max_x: 0, max_y: 0 },
        held_offset: Offset3 { x: 0, y: 0, z_centi: 0 },
        attack_rect: PixelRect { min_x: 0, min_y: 0, max_x: 0, max_y: 0 },
        attack_offset: Offset3 { x: 0, y: 0, z_centi: 0 },
        char_rect: PixelRect { min_x: 0, min_y: 16, max_x: 32, max_y: 32 },
        char_offset: Offset3 { x: 0, y: 0, z_centi: 0 },
        attack_char_rect: PixelRect { min_x: 0, min_y: 64, max_x: 32, max_y: 96 },
        attack_char_offset: Offset3 { x: 0, y: -8i32, z_centi: 0 },
        ammo: u32::MAX,
        cooldown_ms: 300,
        anim_time_ms: 300,
        damage: 100,
        ttl_ms: 300,
        piercing: 128,
        projectile_speed: 0,
        throw_damage: 0,
        weapon_type: kind,
    }
}

/// The weapon of each kind: the pistol has thirty bullets that fly and stop
/// at walls; the axe and the baguette strike without limit and cut through
/// everything in their swing; fists are the enemies' slow blows.
pub open spec fn spec_to_weapon(t: WeaponType) -> Weapon {
    match t {
        WeaponType::Pistol => Weapon {
            rect: PixelRect { min_x: 0, min_y: 16, max_x: 16, max_y: 32 },
            held_rect: PixelRect { min_x: 0, min_y: 16, max_x: 16, max_y: 32 },
            held_offset: Offset3 { x: -2i32, y: -25i32, z_centi: -5i32 },
            attack_rect: PixelRect { min_x: 16, min_y: 16, max_x: 32, max_y: 32 },
            attack_offset: Offset3 { x: -2i32, y: -25i32, z_centi: -5i32 },
            char_rect: PixelRect { min_x: 32, min_y: 0, max_x: 48, max_y: 48 },
            char_offset: Offset3 { x: 0, y: -3i32, z_centi: 0 },
            attack_char_rect: PixelRect { min_x: 32, min_y: 0, max_x: 48, max_y: 48 },
            attack_char_offset: Offset3 { x: 0, y: -3i32, z_centi: 0 },
            ammo: 30,
            cooldown_ms: 100,
            anim_time_ms: 100,
            damage: 100,
            ttl_ms: 5000,
            piercing: 1,
            projectile_speed: 500,
            throw_damage: 100,
            weapon_type: WeaponType::Pistol,
        },
        WeaponType::Axe => Weapon {
            rect: PixelRect { min_x: 32, min_y: 0, max_x: 64, max_y: 16 },
            held_rect: PixelRect { min_x: 0, min_y: 0, max_x: 32, max_y: 16 },
            held_offset: Offset3 { x: -5i32, y: -6i32, z_centi: -30i32 },
            attack_rect: PixelRect { min_x: 32, min_y: 16, max_x: 64, max_y: 32 },
            attack_offset: Offset3 { x: 3, y: -10i32, z_centi: -30i32 },
            char_rect: PixelRect { min_x: 0, min_y: 32, max_x: 32, max_y: 48 },
            char_offset: Offset3 { x: 0, y: 0, z_centi: 0 },
            attack_char_rect: PixelRect { min_x: 0, min_y: 48, max_x: 32, max_y: 64 },
            attack_char_offset: Offset3 { x: 0, y: 0, z_centi: 0 },
            ammo: u32::MAX,
            cooldown_ms: 100,
            anim_time_ms: 100,
            damage: 200,
            ttl_ms: 10,
            piercing: 128,
            projectile_speed: 0,
            throw_damage: 50,
            weapon_type: WeaponType::Axe,
        },
        WeaponType::Baguette => Weapon {
            rect: PixelRect { min_x: 0, min_y: 48, max_x: 32, max_y: 64 },
            held_rect: PixelRect { min_x: 0, min_y: 32, max_x: 32, max_y: 48 },
            held_offset: Offset3 { x: -5i32, y: -6i32, z_centi: -30i32 },
            attack_rect: PixelRect { min_x: 32, min_y: 32, max_x: 64, max_y: 48 },
            attack_offset: Offset3 { x: 3, y: -10i32, z_centi: -30i32 },
            char_rect: PixelRect { min_x: 0, min_y: 32, max_x: 32, max_y: 48 },
            char_offset: Offset3 { x: 0, y: 0, z_centi: 0 },
            attack_char_rect: PixelRect { min_x: 0, min_y: 48, max_x: 32, max_y: 64 },
            attack_char_offset: Offset3 { x: 0, y: 0, z_centi: 0 },
            ammo: u32::MAX,
            cooldown_ms: 100,
            anim_time_ms: 100,
            damage: 300,
            ttl_ms: 10,
            piercing: 128,
            projectile_speed: 0,
            throw_damage: 500,
            weapon_type: WeaponType::Baguette,
        },
        WeaponType::EnemyFists => spec_fists_of(WeaponType::EnemyFists),
        WeaponType::BonniePlay => spec_fists_of(WeaponType::BonniePlay),
        WeaponType::ChickaThrow => spec_fists_of(WeaponType::ChickaThrow),
        WeaponType::FazStar => spec_fists_of(WeaponType::FazStar),
    }
}

impl WeaponType {
    /// The weapon of this kind.
    pub fn to_weapon(&self) -> (r: Weapon)
        ensures
            r == spec_to_weapon(*self),
    {
        match self {
            WeaponType::Pistol => Weapon {
                rect: PixelRect::new(0, 16, 16, 32),
                held_rect: PixelRect::new(0, 16, 16, 32),
                held_offset: Offset3 { x: -2i32, y: -25i32, z_centi: -5i32 },
                attack_rect: PixelRect::new(16, 16, 32, 32),
                attack_offset: Offset3 { x: -2i32, y: -25i32, z_centi: -5i32 },
                char_rect: PixelRect::new(32, 0, 48, 48),
                char_offset: Offset3 { x: 0, y: -3i32, z_centi: 0 },
                attack_char_rect: PixelRect::new(32, 0, 48, 48),
                attack_char_offset: Offset3 { x: 0, y: -3i32, z_centi: 0 },
                ammo: 30,
                cooldown_ms: 100,
                anim_time_ms: 100,
                damage: 100,
                ttl_ms: 5000,
                piercing: 1,
                projectile_speed: 500,
                throw_damage: 100,
                weapon_type: WeaponType::Pistol,
            },
            WeaponType::Axe => Weapon {
                rect: PixelRect::new(32, 0, 64, 16),
                held_rect: PixelRect::new(0, 0, 32, 16),
                held_offset: Offset3 { x: -5i32, y: -6i32, z_centi: -30i32 },
                attack_rect: PixelRect::new(32, 16, 64, 32),
                attack_offset: Offset3 { x: 3, y: -10i32, z_centi: -30i32 },
                char_rect: PixelRect::new(0, 32, 32, 48),
                char_offset: Offset3 { x: 0, y: 0, z_centi: 0 },
                attack_char_rect: PixelRect::new(0, 48, 32, 64),
                attack_char_offset: Offset3 { x: 0, y: 0, z_centi: 0 },
                ammo: u32::MAX,
                cooldown_ms: 100,
                anim_time_ms: 100,
                damage: 200,
                ttl_ms: 10,
                piercing: 128,
                projectile_speed: 0,
                throw_damage: 50,
                weapon_type: WeaponType::Axe,
            },
            WeaponType::Baguette => Weapon {
                rect: PixelRect::new(0, 48, 32, 64),
                held_rect: PixelRect::new(0, 32, 32, 48),
                held_offset: Offset3 { x: -5i32, y: -6i32, z_centi: -30i32 },
                attack_rect: PixelRect::new(32, 32, 64, 48),
                attack_offset: Offset3 { x: 3, y: -10i32, z_centi: -30i32 },
                char_rect: PixelRect::new(0, 32, 32, 48),
                char_offset: Offset3 { x: 0, y: 0, z_centi: 0 },
                attack_char_rect: PixelRect::new(0, 48, 32, 64),
                attack_char_offset: Offset3 { x: 0, y: 0, z_centi: 0 },
                ammo: u32::MAX,
                cooldown_ms: 100,
                anim_time_ms: 100,
                damage: 300,
                ttl_ms: 10,
                piercing: 128,
                projectile_speed: 0,
                throw_damage: 500,
                weapon_type: WeaponType::Baguette,
            },
            WeaponType::EnemyFists
            | WeaponType::BonniePlay
            | WeaponType::ChickaThrow
            | WeaponType::FazStar => fists_of(*self),
        }
    }
}

/// The enemies' blows under the kind `kind`.
fn fists_of(kind: WeaponType) -> (r: Weapon)
    ensures
        r == spec_fists_of(kind),
{
    Weapon {
        rect: PixelRect::new(0, 0, 0, 0),
        held_rect: PixelRect::new(0, 0, 0, 0),
        held_offset: Offset3 { x: 0, y: 0, z_centi: 0 },
        attack_rect: PixelRect::new(0, 0, 0, 0),
        attack_offset: Offset3 { x: 0, y: 0, z_centi: 0 },
        char_rect: PixelRect::new(0, 16, 32, 32),
        char_offset: Offset3 { x: 0, y: 0, z_centi: 0 },
        attack_char_rect: PixelRect::new(0, 64, 32, 96),
        attack_char_offset: Offset3 { x: 0, y: -8i32, z_centi: 0 },
        ammo: u32::MAX,
        cooldown_ms: 300,
        anim_time_ms: 300,
        damage: 100,
        ttl_ms: 300,
        piercing: 128,
        projectile_speed: 0,
        throw_damage: 0,
        weapon_type: kind,
    }
}

/// The weapon an enemy of kind `e` carries when it spawns.
pub open spec fn spec_enemy_weapon(e: MiamiEntity) -> Option<WeaponType> {
    match e {
        MiamiEntity::Player => None,
        MiamiEntity::NewBonnie => Some(WeaponType::BonniePlay),
        MiamiEntity::NewChicka => Some(WeaponType::ChickaThrow),
        MiamiEntity::Freddy => Some(WeaponType::FazStar),
        _ => Some(WeaponType::EnemyFists),
    }
}

/// The weapon an enemy of kind `e` carries when it spawns: plain enemies
/// fight with their fists, each boss with its own weapon; the player starts
/// unarmed.
pub fn enemy_weapon(e: MiamiEntity) -> (r: Option<WeaponType>)
    ensures
        r == spec_enemy_weapon(e),
{
    match e {
        MiamiEntity::Player => None,
        MiamiEntity::NewBonnie => Some(WeaponType::BonniePlay),
        MiamiEntity::NewChicka => Some(WeaponType::ChickaThrow),
        MiamiEntity::Freddy => Some(WeaponType::FazStar),
        _ => Some(WeaponType::EnemyFists),
    }
}

/// The body of a shot or blow.
#[derive(Clone, Copy, PartialEq, Eq, Debug, Structural)]
pub enum ProjectileShape {
    /// A bullet flying along the aim at the weapon's projectile speed.
    Bullet,
    /// A blade swung in front of the holder.
    Blade,
    /// A fist around the holder.
    Fist,
}

/// A shot or blow that has just been made.
#[derive(Clone, Copy, PartialEq, Eq, Debug, Structural)]
pub struct Projectile {
    pub damage: u32,
    pub lifetime_ms: u32,
    pub piercing: u32,
    pub from_player: bool,
    pub despawn_on_wall: bool,
    pub layer: CollisionLayerBits,
    pub shape: ProjectileShape,
}

impl Weapon {
    /// Fire once, if there is ammunition left and the holder wants to.
    pub fn try_fire(&mut self, shoot: bool) -> (r: bool)
        ensures
            r == (old(self).ammo > 0 && shoot),
            final(self).ammo == (if r { old(self).ammo - 1 } else { old(self).ammo as int }),
            *final(self) == (Weapon { ammo: final(self).ammo, ..*old(self) }),
    {
        if self.ammo == 0 {
            return false;
        }
        if !shoot {
            return false;
        }
        self.ammo = self.ammo - 1;
        true
    }

    /// The shot or blow this weapon makes: it hits the player when an
    /// enemy holds the weapon and the other characters otherwise; only
    /// bullets vanish at walls.
    pub fn on_shoot(&self, is_enemy: bool) -> (r: Projectile)
        ensures
            r.damage == self.damage,
            r.lifetime_ms == self.ttl_ms,
            r.piercing == self.piercing,
            r.from_player == !is_enemy,
            r.despawn_on_wall == (self.weapon_type == WeaponType::Pistol),
            r.layer == (if is_enemy {
                CollisionLayerBits { memberships: 0b100000000, filters: 0b100000000 }
            } else {
                CollisionLayerBits { memberships: 0b010000001, filters: 0b010000001 }
            }),
            r.shape == (match self.weapon_type {
                WeaponType::Pistol => ProjectileShape::Bullet,
                WeaponType::Axe | WeaponType::Baguette => ProjectileShape::Blade,
                WeaponType::EnemyFists | WeaponType::BonniePlay | WeaponType::ChickaThrow
                | WeaponType::FazStar => ProjectileShape::Fist,
            }),
    {
        let layer = if is_enemy {
            crate::miami::miami_projectile_player_layer()
        } else {
            crate::miami::miami_projectile_damager_layer()
        };
        let (shape, despawn_on_wall) = match self.weapon_type {
            WeaponType::Pistol => (ProjectileShape::Bullet, true),
            WeaponType::Axe | WeaponType::Baguette => (ProjectileShape::Blade, false),
            WeaponType::EnemyFists | WeaponType::BonniePlay | WeaponType::ChickaThrow
            | WeaponType::FazStar => (ProjectileShape::Fist, false),
        };
        Projectile {
            damage: self.damage,
            lifetime_ms: self.ttl_ms,
            piercing: self.piercing,
            from_player: !is_enemy,
            despawn_on_wall,
            layer,
            shape,
        }
    }
}

/// What a shot or blow does when it touches something.
#[derive(Clone, Copy, PartialEq, Eq, Debug, Structural)]
pub enum ProjectileHit {
    /// It is gone.
    Despawn,
    /// It wounds the character it touched by this much and flies on.
    Damage(u32),
    /// Nothing happens.
    Ignore,
}

impl Projectile {
    /// The effect of touching a wall (`hit_wall`) or a character
    /// (`hit_character`): bullets vanish at walls; a character is wounded
    /// while the shot can still pierce, and the shot vanishes when it
    /// cannot.
    pub fn on_hit(&mut self, hit_wall: bool, hit_character: bool) -> (r: ProjectileHit)
        ensures
            hit_wall && old(self).despawn_on_wall ==> r == ProjectileHit::Despawn && *final(self) == *old(self),
            !(hit_wall && old(self).despawn_on_wall) && !hit_character ==> r == ProjectileHit::Ignore && *final(self) == *old(self),
            !(hit_wall && old(self).despawn_on_wall) && hit_character && old(self).piercing == 0 ==> r == ProjectileHit::Despawn
                && *final(self) == *old(self),
            !(hit_wall && old(self).despawn_on_wall) && hit_character && old(self).piercing > 0 ==> r == ProjectileHit::Damage(
                old(self).damage,
            ) && *final(self) == (Projectile { piercing: (old(self).piercing - 1) as u32, ..*old(self) }),
    {
        if hit_wall && self.despawn_on_wall {
            return ProjectileHit::Despawn;
        }
        if !hit_character {
            return ProjectileHit::Ignore;
        }
        if self.piercing == 0 {
            return ProjectileHit::Despawn;
        }
        self.piercing = self.piercing - 1;
        ProjectileHit::Damage(self.damage)
    }
}

/// A held weapon in one frame.
#[derive(Clone, Copy, PartialEq, Eq, Debug, Structural)]
pub struct ShootTick {
    /// The weapon and its holder show the striking pose: the strike began
    /// less than the animation time ago.
    pub attack_pose: bool,
    /// It fires this frame.
    pub fired: bool,
    /// The time left before it can fire again, in milliseconds.
    pub t_ms: i64,
}

/// One frame of a held weapon, with `t_ms` milliseconds left before it can
/// fire again, after `dt_ms` milliseconds: while that time runs it counts
/// down; once it is over the weapon fires if the holder wants to and it has
/// ammunition, and the wait starts again at the cooldown.
pub fn shoot(w: &mut Weapon, t_ms: i64, dt_ms: u32, wants: bool) -> (r: ShootTick)
    ensures
        r.attack_pose == (t_ms > old(w).cooldown_ms - old(w).anim_time_ms),
        t_ms > 0 ==> !r.fired && r.t_ms == t_ms - dt_ms && *final(w) == *old(w),
        t_ms <= 0 ==> r.fired == (old(w).ammo > 0 && wants),
        t_ms <= 0 ==> r.t_ms == (if r.fired { old(w).cooldown_ms as int } else { t_ms as int }),
        t_ms <= 0 ==> final(w).ammo == (if r.fired { old(w).ammo - 1 } else { old(w).ammo as int }),
        *final(w) == (Weapon { ammo: final(w).ammo, ..*old(w) }),
{
    let attack_pose = t_ms > (w.cooldown_ms as i64) - (w.anim_time_ms as i64);
    if t_ms > 0 {
        return ShootTick { attack_pose, fired: false, t_ms: t_ms - (dt_ms as i64) };
    }
    let fired = w.try_fire(wants);
    let t = if fired { w.cooldown_ms as i64 } else { t_ms };
    ShootTick { attack_pose, fired, t_ms: t }
}

/// The size of the blood splatter a wound of `dmg` leaves: small up to 20,
/// medium up to 40, large above.
pub open spec fn spec_blood_index(dmg: int) -> usize {
    if dmg <= 20 {
        0
    } else if dmg <= 40 {
        1
    } else {
        2
    }
}

/// What a change of health leaves behind.
#[derive(Clone, Copy, PartialEq, Eq, Debug, Structural)]
pub enum Wound {
    /// Nothing happened.
    Unhurt,
    /// A splatter of blood of the given size (an index into the blood
    /// rectangles).
    Bleeding { blood: usize },
    /// The character dies: its body lies face down when the last blow came
    /// from behind and face up otherwise, in the largest pool of blood, and
    /// the character is removed.
    Dead { back: bool },
}

/// What a character's health going from `prev_hp` to `hp` leaves behind;
/// afterwards `hp` is remembered as the previous health.
pub fn health_watcher(prev_hp: i32, hp: i32, last_impact_back: bool) -> (r: Wound)
    ensures
        prev_hp == hp ==> r == Wound::Unhurt,
        prev_hp != hp && hp <= 0 ==> r == (Wound::Dead { back: last_impact_back }),
        prev_hp != hp && hp > 0 ==> r == (Wound::Bleeding { blood: spec_blood_index(prev_hp - hp) }),
{
    let dmg: i64 = (prev_hp as i64) - (hp as i64);
    if dmg == 0 {
        return Wound::Unhurt;
    }
    if hp <= 0 {
        return Wound::Dead { back: last_impact_back };
    }
    let blood: usize = if dmg <= 20 {
        0
    } else if dmg <= 40 {
        1
    } else {
        2
    };
    Wound::Bleeding { blood }
}

/// A random turn of a blood splatter, in quarter turns.
pub fn blood_rotation() -> (r: u32)
    ensures
        r < 4,
{
    crate::miami::random_below_u32(4)
}

/// A weapon lying on the floor where a weapon spawner stands: a sensor
/// circle of `radius` pixels on the pick-up layers, slowed down by
/// `damping`, ready to be picked up.
#[derive(Clone, Copy, PartialEq, Eq, Debug, Structural)]
pub struct WeaponPickup {
    pub weapon: Weapon,
    pub radius: u32,
    pub layers: CollisionLayerBits,
    pub damping: u32,
}

/// The weapon placed at a weapon spawner of kind `t`; only in the shooter.
pub fn on_weapon_spawnpoint(state: crate::states::AppState, t: WeaponType) -> (r: Option<WeaponPickup>)
    ensures
        state != crate::states::AppState::Miami ==> r is None,
        state == crate::states::AppState::Miami ==> r == Some(WeaponPickup {
            weapon: spec_to_weapon(t),
            radius: 8,
            layers: CollisionLayerBits { memberships: 0b001000000, filters: 0b001000000 },
            damping: 3,
        }),
{
    if state != crate::states::AppState::Miami {
        return None;
    }
    Some(WeaponPickup { weapon: t.to_weapon(), radius: 8, layers: crate::miami::miami_pickup_weapon_layers(), damping: 3 })
}

/// How a character and its weapon look: the character's sprite rectangle
/// and offset, and the weapon's.
#[derive(Clone, Copy, PartialEq, Eq, Debug, Structural)]
pub struct ArmedPose {
    pub char_rect: PixelRect,
    pub char_offset: Offset3,
    pub weapon_rect: PixelRect,
    pub weapon_offset: Offset3,
}

/// A weapon touched by the player: in the shooter, a weapon ready on the
/// floor is picked up by an unarmed player, who then holds it.
pub fn on_pickup_weapon_collision(state: crate::states::AppState, w: &Weapon, ready: bool, unarmed_player: bool) -> (r: Option<ArmedPose>)
    ensures
        !(state == crate::states::AppState::Miami && ready && unarmed_player) ==> r is None,
        state == crate::states::AppState::Miami && ready && unarmed_player ==> r == Some(ArmedPose {
            char_rect: w.char_rect,
            char_offset: w.char_offset,
            weapon_rect: w.held_rect,
            weapon_offset: w.held_offset,
        }),
{
    if state != crate::states::AppState::Miami || !ready || !unarmed_player {
        return None;
    }
    Some(ArmedPose { char_rect: w.char_rect, char_offset: w.char_offset, weapon_rect: w.held_rect, weapon_offset: w.held_offset })
}

/// A weapon thrown away: the character looks unarmed again, the weapon
/// shows its floor sprite and flies on the layers of thrown weapons.
#[derive(Clone, Copy, PartialEq, Eq, Debug, Structural)]
pub struct ThrownPose {
    pub char_rect: PixelRect,
    pub char_offset: Offset3,
    pub weapon_rect: PixelRect,
    pub layers: CollisionLayerBits,
}

/// A weapon held by a character who wants to throw it (`throw`) leaves
/// the character's hands.
pub fn throw_weapon(w: &Weapon, character: &crate::miami::CharacterSprite, throw: bool) -> (r: Option<ThrownPose>)
    ensures
        !throw ==> r is None,
        throw ==> r == Some(ThrownPose {
            char_rect: character.default_rect,
            char_offset: character.default_offset,
            weapon_rect: w.rect,
            layers: CollisionLayerBits { memberships: 0b000011000, filters: 0b000010011 },
        }),
{
    if !throw {
        return None;
    }
    Some(ThrownPose {
        char_rect: character.default_rect,
        char_offset: character.default_offset,
        weapon_rect: w.rect,
        layers: crate::miami::miami_dropped_weapon_layers(),
    })
}

impl Projectile {
    /// A shot growing `dt_ms` milliseconds older: whether its time is up,
    /// so that it vanishes.
    pub fn update_projectile(&mut self, dt_ms: u32) -> (expired: bool)
        ensures
            expired == (old(self).lifetime_ms <= dt_ms),
            *final(self) == (Projectile { lifetime_ms: if expired { 0 } else { (old(self).lifetime_ms - dt_ms) as u32 }, ..*old(self) }),
    {
        self.lifetime_ms = self.lifetime_ms.saturating_sub(dt_ms);
        self.lifetime_ms == 0
    }
}

/// A thrown weapon that has slowed down (below the speed at which it
/// counts as flying) lies on the floor again, ready to be picked up, on
/// the pick-up layers; a faster one flies on.
pub fn tick_thrown(slowed: bool) -> (r: Option<CollisionLayerBits>)
    ensures
        slowed ==> r == Some(CollisionLayerBits { memberships: 0b001000000, filters: 0b001000000 }),
        !slowed ==> r is None,
{
    if slowed {
        Some(crate::miami::miami_pickup_weapon_layers())
    } else {
        None
    }
}

} // verus!
