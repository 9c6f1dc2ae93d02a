//! The top-down shooter: the characters, their sprites and stats, the
//! collision layers of characters, weapons and projectiles, and the boss
//! fight against the animatronics.
use vstd::prelude::*;
use rand::Rng;
use crate::layers::{CollisionLayerBits, spec_interacts};
use crate::palette::Rgba8;

verus! {

/// The kinds of characters of the shooter.
#[derive(Clone, Copy, PartialEq, Eq, Debug, Structural)]
pub enum MiamiEntity {
    Player,
    Endoskeleton,
    GoldenEndoskeleton,
    CopperEndoskeleton,
    Bonnie,
    NewBonnie,
    Chicka,
    NewChicka,
    Freddy,
}

impl Default for MiamiEntity {
    fn default() -> (r: Self)
        ensures
            r == MiamiEntity::Player,
    {
        MiamiEntity::Player
    }
}

/// A rectangle of a sprite sheet, in pixels, given by its two corners.
#[derive(Clone, Copy, PartialEq, Eq, Debug, Structural)]
pub struct PixelRect {
    pub min_x: i32,
    pub min_y: i32,
    pub max_x: i32,
    pub max_y: i32,
}

/// The smaller of two numbers.
pub open spec fn min_i(a: i32, b: i32) -> i32 {
    if a <= b { a } else { b }
}

/// The larger of two numbers.
pub open spec fn max_i(a: i32, b: i32) -> i32 {
    if a <= b { b } else { a }
}

impl PixelRect {
    /// The rectangle with corners `(x0, y0)` and `(x1, y1)`, in any order.
    pub fn new(x0: i32, y0: i32, x1: i32, y1: i32) -> (r: Self)
        ensures
            r == (PixelRect { min_x: min_i(x0, x1), min_y: min_i(y0, y1), max_x: max_i(x0, x1), max_y: max_i(y0, y1) }),
    {
        PixelRect {
            min_x: if x0 <= x1 { x0 } else { x1 },
            min_y: if y0 <= y1 { y0 } else { y1 },
            max_x: if x0 <= x1 { x1 } else { x0 },
            max_y: if y0 <= y1 { y1 } else { y0 },
        }
    }
}

/// A displacement in pixels, with the depth in hundredths of a unit.
#[derive(Clone, Copy, PartialEq, Eq, Debug, Structural)]
pub struct Offset3 {
    pub x: i32,
    pub y: i32,
    pub z_centi: i32,
}

/// How a character is cut from its sprite sheet.
#[derive(Clone, Copy, PartialEq, Eq, Debug, Structural)]
pub struct CharacterSprite {
    pub default_rect: PixelRect,
    pub default_offset: Offset3,
    pub foot_rect: PixelRect,
    pub foot_offset: Offset3,
}

/// The sprite sheets of the characters.
#[derive(Clone, Copy, PartialEq, Eq, Debug, Structural)]
pub enum MiamiImage {
    Character,
    Bonnie,
    NewBonnie,
    Chica,
    NewChica,
    Endoskeleton,
    CopperEndoskeleton,
    GoldenEndoskeleton,
    Freddy,
}

/// The sprite layout of a kind of character: Freddy is a larger sheet
/// without feet, the others share one layout.
pub open spec fn spec_to_character(e: MiamiEntity) -> CharacterSprite {
    if e == MiamiEntity::Freddy {
        CharacterSprite {
            default_rect: PixelRect { min_x: 0, min_y: 0, max_x: 48, max_y: 48 },
            default_offset: Offset3 { x: 0, y: 11, z_centi: 0 },
            foot_offset: Offset3 { x: 0, y: 0, z_centi: 0 },
            foot_rect: PixelRect { min_x: 0, min_y: 0, max_x: 0, max_y: 0 },
        }
    } else {
        CharacterSprite {
            default_rect: PixelRect { min_x: 0, min_y: 16, max_x: 32, max_y: 32 },
            default_offset: Offset3 { x: 0, y: 0, z_centi: 0 },
            foot_offset: Offset3 { x: 0, y: 0, z_centi: 0 },
            foot_rect: PixelRect { min_x: 0, min_y: 0, max_x: 16, max_y: 16 },
        }
    }
}

/// The sprite sheet of each kind of character.
pub open spec fn spec_to_handle(e: MiamiEntity) -> MiamiImage {
    match e {
        MiamiEntity::Player => MiamiImage::Character,
        MiamiEntity::Bonnie => MiamiImage::Bonnie,
        MiamiEntity::NewBonnie => MiamiImage::NewBonnie,
        MiamiEntity::Chicka => MiamiImage::Chica,
        MiamiEntity::NewChicka => MiamiImage::NewChica,
        MiamiEntity::Endoskeleton => MiamiImage::Endoskeleton,
        MiamiEntity::CopperEndoskeleton => MiamiImage::CopperEndoskeleton,
        MiamiEntity::GoldenEndoskeleton => MiamiImage::GoldenEndoskeleton,
        MiamiEntity::Freddy => MiamiImage::Freddy,
    }
}

impl MiamiEntity {
    /// How this kind of character is cut from its sprite sheet.
    pub fn to_character(&self) -> (r: CharacterSprite)
        ensures
            r == spec_to_character(*self),
    {
        match self {
            MiamiEntity::Freddy => CharacterSprite {
                default_rect: PixelRect::new(0, 0, 48, 48),
                default_offset: Offset3 { x: 0, y: 11, z_centi: 0 },
                foot_offset: Offset3 { x: 0, y: 0, z_centi: 0 },
                foot_rect: PixelRect::new(0, 0, 0, 0),
            },
            _ => CharacterSprite {
                default_rect: PixelRect::new(0, 16, 32, 32),
                default_offset: Offset3 { x: 0, y: 0, z_centi: 0 },
                foot_offset: Offset3 { x: 0, y: 0, z_centi: 0 },
                foot_rect: PixelRect::new(0, 0, 16, 16),
            },
        }
    }

    /// The sprite sheet of this kind of character.
    pub fn to_handle(&self) -> (r: MiamiImage)
        ensures
            r == spec_to_handle(*self),
    {
        match self {
            MiamiEntity::Player => MiamiImage::Character,
            MiamiEntity::Bonnie => MiamiImage::Bonnie,
            MiamiEntity::NewBonnie => MiamiImage::NewBonnie,
            MiamiEntity::Chicka => MiamiImage::Chica,
            MiamiEntity::NewChicka => MiamiImage::NewChica,
            MiamiEntity::Endoskeleton => MiamiImage::Endoskeleton,
            MiamiEntity::CopperEndoskeleton => MiamiImage::CopperEndoskeleton,
            MiamiEntity::GoldenEndoskeleton => MiamiImage::GoldenEndoskeleton,
            MiamiEntity::Freddy => MiamiImage::Freddy,
        }
    }
}

/// Every kind of character has its own sprite sheet.
pub proof fn lemma_sheets_distinct(a: MiamiEntity, b: MiamiEntity)
    ensures
        spec_to_handle(a) == spec_to_handle(b) ==> a == b,
{
}

/// The player's body: it belongs to its own groups and collides with walls,
/// characters, pick-ups and enemy shots.
pub fn miami_player_layers() -> (r: CollisionLayerBits)
    ensures
        r == (CollisionLayerBits { memberships: 0b101000110, filters: 0b101000111 }),
{
    CollisionLayerBits::from_bits(0b101000110, 0b101000111)
}

/// The bodies of the other characters.
pub fn miami_character_layers() -> (r: CollisionLayerBits)
    ensures
        r == (CollisionLayerBits { memberships: 0b010010010, filters: 0b010010111 }),
{
    CollisionLayerBits::from_bits(0b010010010, 0b010010111)
}

/// A thrown weapon in flight.
pub fn miami_dropped_weapon_layers() -> (r: CollisionLayerBits)
    ensures
        r == (CollisionLayerBits { memberships: 0b000011000, filters: 0b000010011 }),
{
    CollisionLayerBits::from_bits(0b000011000, 0b000010011)
}

/// A weapon lying on the floor, ready to be picked up.
pub fn miami_pickup_weapon_layers() -> (r: CollisionLayerBits)
    ensures
        r == (CollisionLayerBits { memberships: 0b001000000, filters: 0b001000000 }),
{
    CollisionLayerBits::from_bits(0b001000000, 0b001000000)
}

/// A weapon in a character's hands: it collides with nothing.
pub fn miami_weapon_layers() -> (r: CollisionLayerBits)
    ensures
        r == (CollisionLayerBits { memberships: 0, filters: 0 }),
{
    CollisionLayerBits::from_bits(0b000000000, 0b000000000)
}

/// The shots and blows of the player.
pub fn miami_projectile_damager_layer() -> (r: CollisionLayerBits)
    ensures
        r == (CollisionLayerBits { memberships: 0b010000001, filters: 0b010000001 }),
{
    CollisionLayerBits::from_bits(0b010000001, 0b010000001)
}

/// The shots and blows of the enemies.
pub fn miami_projectile_player_layer() -> (r: CollisionLayerBits)
    ensures
        r == (CollisionLayerBits { memberships: 0b100000000, filters: 0b100000000 }),
{
    CollisionLayerBits::from_bits(0b100000000, 0b100000000)
}

/// The sight of the enemies looking for the player.
pub fn miami_seeker_shapecast_layer() -> (r: CollisionLayerBits)
    ensures
        r == (CollisionLayerBits { memberships: 0b000000011, filters: 0b000000011 }),
{
    CollisionLayerBits::from_bits(0b000000011, 0b000000011)
}

/// The sensors that start a dialog when the player walks in.
pub fn dialog_sensor_layer() -> (r: CollisionLayerBits)
    ensures
        r == (CollisionLayerBits { memberships: 0b000000100, filters: 0b000000100 }),
{
    CollisionLayerBits::from_bits(0b000000100, 0b000000100)
}

/// Who hits whom: the player's shots hit the other characters and not the
/// player; the enemies' shots hit the player and not the other characters;
/// a weapon in hand touches nothing; the dialog sensors notice the player
/// and no one else; a weapon on the floor can be picked up by the player
/// only.
pub proof fn lemma_miami_layer_rules()
    ensures
        spec_interacts(
            CollisionLayerBits { memberships: 0b010000001, filters: 0b010000001 },
            CollisionLayerBits { memberships: 0b010010010, filters: 0b010010111 },
        ),
        !spec_interacts(
            CollisionLayerBits { memberships: 0b010000001, filters: 0b010000001 },
            CollisionLayerBits { memberships: 0b101000110, filters: 0b101000111 },
        ),
        spec_interacts(
            CollisionLayerBits { memberships: 0b100000000, filters: 0b100000000 },
            CollisionLayerBits { memberships: 0b101000110, filters: 0b101000111 },
        ),
        !spec_interacts(
            CollisionLayerBits { memberships: 0b100000000, filters: 0b100000000 },
            CollisionLayerBits { memberships: 0b010010010, filters: 0b010010111 },
        ),
        forall|other: CollisionLayerBits| !spec_interacts(CollisionLayerBits { memberships: 0, filters: 0 }, other),
        spec_interacts(
            CollisionLayerBits { memberships: 0b000000100, filters: 0b000000100 },
            CollisionLayerBits { memberships: 0b101000110, filters: 0b101000111 },
        ),
        !spec_interacts(
            CollisionLayerBits { memberships: 0b000000100, filters: 0b000000100 },
            CollisionLayerBits { memberships: 0b010010010, filters: 0b010010111 },
        ),
        spec_interacts(
            CollisionLayerBits { memberships: 0b001000000, filters: 0b001000000 },
            CollisionLayerBits { memberships: 0b101000110, filters: 0b101000111 },
        ),
        !spec_interacts(
            CollisionLayerBits { memberships: 0b001000000, filters: 0b001000000 },
            CollisionLayerBits { memberships: 0b010010010, filters: 0b010010111 },
        ),
{
    assert(0b010000001u32 & 0b010010111u32 != 0u32) by (bit_vector);
    assert(0b010010010u32 & 0b010000001u32 != 0u32) by (bit_vector);
    assert(0b101000110u32 & 0b010000001u32 == 0u32) by (bit_vector);
    assert(0b100000000u32 & 0b101000111u32 != 0u32) by (bit_vector);
    assert(0b101000110u32 & 0b100000000u32 != 0u32) by (bit_vector);
    assert(0b100000000u32 & 0b010010111u32 == 0u32) by (bit_vector);
    assert(forall|x: u32| 0u32 & x == 0u32) by (bit_vector);
    assert(0b000000100u32 & 0b101000111u32 != 0u32) by (bit_vector);
    assert(0b101000110u32 & 0b000000100u32 != 0u32) by (bit_vector);
    assert(0b000000100u32 & 0b010010111u32 != 0u32 ==> 0b010010010u32 & 0b000000100u32 == 0u32) by (bit_vector);
    assert(0b010010010u32 & 0b000000100u32 == 0u32) by (bit_vector);
    assert(0b001000000u32 & 0b101000111u32 != 0u32) by (bit_vector);
    assert(0b101000110u32 & 0b001000000u32 != 0u32) by (bit_vector);
    assert(0b001000000u32 & 0b010010111u32 == 0u32) by (bit_vector);
}

/// The colour of the player's blood.
pub fn red_blood() -> (r: Rgba8)
    ensures
        r == (Rgba8 { r: 200, g: 32, b: 61, a: 255 }),
{
    Rgba8::rgba_u8(200, 32, 61, 255)
}

/// The colour of the animatronics' oil.
pub fn oil_blood() -> (r: Rgba8)
    ensures
        r == (Rgba8 { r: 30, g: 22, b: 64, a: 255 }),
{
    Rgba8::rgba_u8(30, 22, 64, 255)
}

/// The blood decals, from the smallest splash to the pool under a body.
pub fn blood_rects() -> (r: [PixelRect; 3])
    ensures
        r@ == seq![
            PixelRect { min_x: 16, min_y: 32, max_x: 32, max_y: 48 },
            PixelRect { min_x: 0, min_y: 32, max_x: 16, max_y: 48 },
            PixelRect { min_x: 0, min_y: 0, max_x: 32, max_y: 32 },
        ],
{
    let r = [PixelRect::new(16, 32, 32, 48), PixelRect::new(0, 32, 16, 48), PixelRect::new(0, 0, 32, 32)];
    assert(r@ =~= seq![
        PixelRect { min_x: 16, min_y: 32, max_x: 32, max_y: 48 },
        PixelRect { min_x: 0, min_y: 32, max_x: 16, max_y: 48 },
        PixelRect { min_x: 0, min_y: 0, max_x: 32, max_y: 32 },
    ]);
    r
}

/// The body left by a character shot from the front.
pub fn front_body_rect() -> (r: PixelRect)
    ensures
        r == (PixelRect { min_x: 48, min_y: 0, max_x: 80, max_y: 64 }),
{
    PixelRect::new(48, 0, 80, 64)
}

/// The body left by a character shot from behind.
pub fn back_body_rect() -> (r: PixelRect)
    ensures
        r == (PixelRect { min_x: 80, min_y: 0, max_x: 112, max_y: 64 }),
{
    PixelRect::new(80, 0, 112, 64)
}


/// The speeds, in pixels per second, and the health of a character, with
/// its health as of the last wound check (`prev_hp`).
#[derive(Clone, Copy, PartialEq, Eq, Debug, Structural)]
pub struct CharacterStats {
    pub speed: u32,
    pub run_speed: u32,
    pub walk_speed: u32,
    pub hp: u32,
    pub prev_hp: u32,
    pub blood_color: Rgba8,
    pub character: MiamiEntity,
}

/// The stats of each kind of character, unhurt (`prev_hp` equals `hp`):
/// the player is fast and tough and bleeds red; endoskeletons are weak and quicker on their feet when they
/// wander; every other animatronic has 300 health and walks slowly.
pub open spec fn spec_stats(e: MiamiEntity) -> CharacterStats {
    match e {
        MiamiEntity::Player => CharacterStats {
            speed: 120,
            run_speed: 120,
            walk_speed: 120,
            hp: 1200,
            prev_hp: 1200,
            blood_color: Rgba8 { r: 200, g: 32, b: 61, a: 255 },
            character: e,
        },
        MiamiEntity::Endoskeleton => CharacterStats {
            speed: 100,
            run_speed: 100,
            walk_speed: 60,
            hp: 100,
            prev_hp: 100,
            blood_color: Rgba8 { r: 30, g: 22, b: 64, a: 255 },
            character: e,
        },
        _ => CharacterStats {
            speed: 100,
            run_speed: 100,
            walk_speed: 30,
            hp: 300,
            prev_hp: 300,
            blood_color: Rgba8 { r: 30, g: 22, b: 64, a: 255 },
            character: e,
        },
    }
}

impl CharacterStats {
    /// The stats of a character of kind `entity_type`.
    pub fn from_type(entity_type: &MiamiEntity) -> (r: Self)
        ensures
            r == spec_stats(*entity_type),
            r.prev_hp == r.hp,
    {
        let e = *entity_type;
        match entity_type {
            MiamiEntity::Player => CharacterStats {
                speed: 120,
                run_speed: 120,
                walk_speed: 120,
                hp: 1200,
                prev_hp: 1200,
                blood_color: red_blood(),
                character: e,
            },
            MiamiEntity::Endoskeleton => CharacterStats {
                speed: 100,
                run_speed: 100,
                walk_speed: 60,
                hp: 100,
                prev_hp: 100,
                blood_color: oil_blood(),
                character: e,
            },
            _ => CharacterStats {
                speed: 100,
                run_speed: 100,
                walk_speed: 30,
                hp: 300,
                prev_hp: 300,
                blood_color: oil_blood(),
                character: e,
            },
        }
    }
}

impl Default for CharacterStats {
    /// A placeholder endoskeleton with a single point of health.
    fn default() -> (r: Self)
        ensures
            r == (CharacterStats {
                speed: 120,
                run_speed: 120,
                walk_speed: 120,
                hp: 1,
                prev_hp: 1,
                blood_color: Rgba8 { r: 30, g: 22, b: 64, a: 255 },
                character: MiamiEntity::Endoskeleton,
            }),
    {
        CharacterStats {
            speed: 120,
            run_speed: 120,
            walk_speed: 120,
            hp: 1,
            prev_hp: 1,
            blood_color: oil_blood(),
            character: MiamiEntity::Endoskeleton,
        }
    }
}

/// How an enemy looks for the player: how far it sees ahead and behind, in
/// pixels, how long it searches after losing sight of the player and how
/// long it stands still before wandering, in seconds.
#[derive(Clone, Copy, PartialEq, Eq, Debug, Structural)]
pub struct ChaserStats {
    pub seek_range: u32,
    pub attention_range: u32,
    pub max_seek_secs: u32,
    pub max_stay_secs: u32,
}

impl MiamiEntity {
    /// How an enemy of this kind looks for the player: endoskeletons give
    /// up the search after a second, the others after twenty.
    pub fn to_chaser(&self) -> (r: ChaserStats)
        requires
            *self != MiamiEntity::Player,
        ensures
            r == spec_chaser(*self),
            r.seek_range == 300,
            r.attention_range == 100,
            r.max_seek_secs == (if *self == MiamiEntity::Endoskeleton { 1u32 } else { 20u32 }),
            r.max_stay_secs == 10,
    {
        match self {
            MiamiEntity::Endoskeleton => ChaserStats {
                seek_range: 300,
                attention_range: 100,
                max_seek_secs: 1,
                max_stay_secs: 10,
            },
            _ => ChaserStats {
                seek_range: 300,
                attention_range: 100,
                max_seek_secs: 20,
                max_stay_secs: 10,
            },
        }
    }

    /// The bosses spawn invincible and wait for the fight to begin.
    pub fn is_boss(&self) -> (r: bool)
        ensures
            r == (*self == MiamiEntity::NewBonnie || *self == MiamiEntity::NewChicka || *self == MiamiEntity::Freddy),
    {
        match self {
            MiamiEntity::NewBonnie | MiamiEntity::NewChicka | MiamiEntity::Freddy => true,
            _ => false,
        }
    }

    /// The three kinds of endoskeleton, the bosses' minions.
    pub fn is_endoskeleton(&self) -> (r: bool)
        ensures
            r == (*self == MiamiEntity::Endoskeleton || *self == MiamiEntity::CopperEndoskeleton
                || *self == MiamiEntity::GoldenEndoskeleton),
    {
        match self {
            MiamiEntity::Endoskeleton | MiamiEntity::CopperEndoskeleton | MiamiEntity::GoldenEndoskeleton => true,
            _ => false,
        }
    }
}

/// The stages of the boss fight.
#[derive(Clone, Copy, PartialEq, Eq, Debug, Structural)]
pub enum FreddyFightStage {
    Idle,
    BonnieChicka,
    PreFreddy,
    Freddy,
    Finished,
}

impl Default for FreddyFightStage {
    fn default() -> (r: Self)
        ensures
            r == FreddyFightStage::Idle,
    {
        FreddyFightStage::Idle
    }
}

/// The part a character plays in the boss fight.
#[derive(Clone, Copy, PartialEq, Eq, Debug, Structural)]
pub struct FighterAssignment {
    pub role: Fighter,
    /// Whether it keeps its invincibility for now.
    pub invincible: bool,
    /// Whether it waits until its stage of the fight.
    pub waits: bool,
}

/// The three fighters of the boss fight.
#[derive(Clone, Copy, PartialEq, Eq, Debug, Structural)]
pub enum Fighter {
    Bonnie,
    Chicka,
    Freddy,
}

/// The part each boss plays: Bonnie and Chicka fight first and lose their
/// invincibility; Freddy stays invincible and waits; nobody else fights.
pub fn setup_freddy_fight(e: MiamiEntity) -> (r: Option<FighterAssignment>)
    ensures
        e == MiamiEntity::NewChicka ==> r == Some(FighterAssignment { role: Fighter::Chicka, invincible: false, waits: false }),
        e == MiamiEntity::NewBonnie ==> r == Some(FighterAssignment { role: Fighter::Bonnie, invincible: false, waits: false }),
        e == MiamiEntity::Freddy ==> r == Some(FighterAssignment { role: Fighter::Freddy, invincible: true, waits: true }),
        !e.is_boss_spec() ==> r is None,
{
    match e {
        MiamiEntity::NewChicka => Some(FighterAssignment { role: Fighter::Chicka, invincible: false, waits: false }),
        MiamiEntity::NewBonnie => Some(FighterAssignment { role: Fighter::Bonnie, invincible: false, waits: false }),
        MiamiEntity::Freddy => Some(FighterAssignment { role: Fighter::Freddy, invincible: true, waits: true }),
        _ => None,
    }
}

impl MiamiEntity {
    /// One of the three bosses.
    pub open spec fn is_boss_spec(self) -> bool {
        self == MiamiEntity::NewBonnie || self == MiamiEntity::NewChicka || self == MiamiEntity::Freddy
    }
}

/// The fight begins when Freddy waits and Chicka and Bonnie are ready.
pub fn freddy_fight_ready(freddy_waiting: bool, chicka_ready: bool, bonnie_ready: bool) -> (r: Option<FreddyFightStage>)
    ensures
        r == (if freddy_waiting && chicka_ready && bonnie_ready { Some(FreddyFightStage::BonnieChicka) } else { None }),
{
    if !(!freddy_waiting || !chicka_ready || !bonnie_ready) {
        Some(FreddyFightStage::BonnieChicka)
    } else {
        None
    }
}

/// The chance, out of the total, that a minion is a copper endoskeleton.
pub const WEIGHT_COPPER: u32 = 50;
/// The chance that a minion is a golden endoskeleton.
pub const WEIGHT_GOLDEN: u32 = 10;
/// The chance that a minion is a plain endoskeleton.
pub const WEIGHT_NORMAL: u32 = 40;
/// The rolls below this make copper or golden endoskeletons.
pub const COPPER_GOLD: u32 = 60;
/// The number of possible rolls.
pub const TOTAL_WEIGHT: u32 = 100;

/// The minion a roll in `0..TOTAL_WEIGHT` makes: copper for the first
/// fifty, golden for the next ten, plain for the last forty.
pub fn endoskeleton_for_roll(roll: u32) -> (r: MiamiEntity)
    ensures
        roll < WEIGHT_COPPER ==> r == MiamiEntity::CopperEndoskeleton,
        WEIGHT_COPPER <= roll < COPPER_GOLD ==> r == MiamiEntity::GoldenEndoskeleton,
        COPPER_GOLD <= roll ==> r == MiamiEntity::Endoskeleton,
        r.is_endoskeleton_spec(),
{
    if roll < WEIGHT_COPPER {
        MiamiEntity::CopperEndoskeleton
    } else if roll < COPPER_GOLD {
        MiamiEntity::GoldenEndoskeleton
    } else {
        MiamiEntity::Endoskeleton
    }
}

impl MiamiEntity {
    /// One of the three kinds of endoskeleton.
    pub open spec fn is_endoskeleton_spec(self) -> bool {
        self == MiamiEntity::Endoskeleton || self == MiamiEntity::CopperEndoskeleton
            || self == MiamiEntity::GoldenEndoskeleton
    }
}

/// The weights of the minions add up to the number of rolls.
pub proof fn lemma_weights_cover_rolls()
    ensures
        WEIGHT_COPPER + WEIGHT_GOLDEN == COPPER_GOLD,
        WEIGHT_COPPER + WEIGHT_GOLDEN + WEIGHT_NORMAL == TOTAL_WEIGHT,
{
}

/// A number drawn by `rand::Rng::random_range` over `0..upper` from the
/// thread's generator `rand::rng()`; the documentation of `random_range`
/// promises a value of the half-open range and panics on an empty one.
/// Which value comes out is left to chance.
#[verifier::external_body]
pub(crate) fn random_below(upper: u64) -> (r: u64)
    requires
        upper > 0,
    ensures
        r < upper,
{
    rand::rng().random_range(0..upper)
}

/// A number below `upper`, at random.
pub(crate) fn random_below_u32(upper: u32) -> (r: u32)
    requires
        upper > 0,
    ensures
        r < upper,
{
    random_below(upper as u64) as u32
}

/// A random minion, weighted as the rolls say: one roll of
/// `0..TOTAL_WEIGHT` through `endoskeleton_for_roll`.
pub fn roll_endoskeleton() -> (r: MiamiEntity)
    ensures
        r.is_endoskeleton_spec(),
{
    let roll = random_below_u32(TOTAL_WEIGHT);
    endoskeleton_for_roll(roll)
}

/// A random spawner, by its index among the `count` spawners.
pub fn pick_spawner(count: usize) -> (r: usize)
    requires
        count > 0,
    ensures
        r < count,
{
    random_below(count as u64) as usize
}

/// What the first stage of the boss fight does in a frame.
#[derive(Clone, Copy, PartialEq, Eq, Debug, Structural)]
pub struct BonnieChickaStep {
    /// Both are gone: the stage before Freddy begins.
    pub to_pre_freddy: bool,
    /// The minion spawn clock runs (not both stand their ground).
    pub spawn_clock_runs: bool,
    /// Chicka stops standing and starts chasing.
    pub release_chicka: bool,
    /// Bonnie stops standing and starts chasing.
    pub release_bonnie: bool,
}

/// The first stage of the boss fight. `standing_chicka` and
/// `standing_bonnie` are present while the fighter stands its ground and
/// tell whether its health has fallen to the chase threshold; `chicka` and
/// `bonnie` tell whether the fighter is chasing. When both are gone the
/// stage ends; while at least one of them is not standing, minions keep
/// coming; a standing fighter at the threshold starts chasing, Chicka
/// first, one per frame.
pub fn tick_bonnie_chicka_fight(
    chicka: bool,
    bonnie: bool,
    standing_chicka: Option<bool>,
    standing_bonnie: Option<bool>,
) -> (r: BonnieChickaStep)
    ensures
        r.to_pre_freddy == (!chicka && !bonnie && standing_chicka is None && standing_bonnie is None),
        r.spawn_clock_runs == (!r.to_pre_freddy && (standing_chicka is None || standing_bonnie is None)),
        r.release_chicka == (!r.to_pre_freddy && standing_chicka == Some(true)),
        r.release_bonnie == (!r.to_pre_freddy && standing_chicka != Some(true) && standing_bonnie == Some(true)),
{
    let mut r = BonnieChickaStep {
        to_pre_freddy: false,
        spawn_clock_runs: false,
        release_chicka: false,
        release_bonnie: false,
    };
    if !chicka && !bonnie && standing_chicka.is_none() && standing_bonnie.is_none() {
        r.to_pre_freddy = true;
        return r;
    }
    if standing_chicka.is_none() || standing_bonnie.is_none() {
        r.spawn_clock_runs = true;
    }
    if let Some(low) = standing_chicka {
        if low {
            r.release_chicka = true;
            return r;
        }
    }
    if let Some(low) = standing_bonnie {
        if low {
            r.release_bonnie = true;
            return r;
        }
    }
    r
}

/// The seconds between minions while Freddy stands his ground.
pub const FREDDY1_ENDOSKELETON_SPAWN_DELAY: u32 = 5;
/// The seconds between minions while Freddy chases the player.
pub const FREDDY2_ENDOSKELETON_SPAWN_DELAY: u32 = 3;
/// The seconds between minions while Bonnie and Chicka fight.
pub const BONNIE_CHICKA_ENDOSKELETON_SPAWN_DELAY: u32 = 10;

/// What Freddy's stage of the fight does in a frame.
#[derive(Clone, Copy, PartialEq, Eq, Debug, Structural)]
pub enum FreddyStep {
    /// Freddy stops standing and starts chasing.
    Release,
    /// Minions keep coming, one every `delay_secs` seconds.
    Spawn { delay_secs: u32 },
    /// Freddy is gone: nothing happens.
    Nothing,
}

/// Freddy's stage: standing at the chase threshold he starts chasing;
/// otherwise minions come faster once he chases.
pub fn tick_freddy_fight(standing_freddy: Option<bool>, freddy: bool) -> (r: FreddyStep)
    ensures
        standing_freddy == Some(true) ==> r == FreddyStep::Release,
        standing_freddy == Some(false) ==> r == (FreddyStep::Spawn { delay_secs: FREDDY1_ENDOSKELETON_SPAWN_DELAY }),
        standing_freddy is None && freddy ==> r == (FreddyStep::Spawn { delay_secs: FREDDY2_ENDOSKELETON_SPAWN_DELAY }),
        standing_freddy is None && !freddy ==> r == FreddyStep::Nothing,
{
    if let Some(low) = standing_freddy {
        if low {
            return FreddyStep::Release;
        }
        return FreddyStep::Spawn { delay_secs: FREDDY1_ENDOSKELETON_SPAWN_DELAY };
    }
    if freddy {
        FreddyStep::Spawn { delay_secs: FREDDY2_ENDOSKELETON_SPAWN_DELAY }
    } else {
        FreddyStep::Nothing
    }
}

/// The shadows to remove: those whose caster, given by its entity bits, is
/// no longer among the casters.
pub fn cleanup_shadows(shadows: &Vec<(u64, u64)>, casters: &Vec<u64>) -> (r: Vec<u64>)
    ensures
        forall|e: u64|
            r@.contains(e) <==> exists|k: int|
                0 <= k < shadows@.len() && #[trigger] shadows@[k].0 == e && !casters@.contains(shadows@[k].1),
{
    let mut r: Vec<u64> = Vec::new();
    let mut i: usize = 0;
    while i < shadows.len()
        invariant
            i <= shadows@.len(),
            forall|e: u64|
                r@.contains(e) <==> exists|k: int|
                    0 <= k < i && #[trigger] shadows@[k].0 == e && !casters@.contains(shadows@[k].1),
        decreases shadows@.len() - i,
    {
        let (e, of) = shadows[i];
        let ghost before = r@;
        if !contains_u64(casters, of) {
            r.push(e);
            proof {
                crate::seqs::lemma_push_contains(before, e);
            }
        }
        assert forall|x: u64|
            r@.contains(x) <==> exists|k: int|
                0 <= k < i + 1 && #[trigger] shadows@[k].0 == x && !casters@.contains(shadows@[k].1) by {
            if exists|k: int| 0 <= k < i + 1 && #[trigger] shadows@[k].0 == x && !casters@.contains(shadows@[k].1) {
                let k = choose|k: int| 0 <= k < i + 1 && #[trigger] shadows@[k].0 == x && !casters@.contains(shadows@[k].1);
                if k < i {
                    assert(before.contains(x));
                }
            }
        }
        i = i + 1;
    }
    r
}

/// Whether `x` is among `v`.
pub fn contains_u64(v: &Vec<u64>, x: u64) -> (r: bool)
    ensures
        r == v@.contains(x),
{
    let mut i: usize = 0;
    while i < v.len()
        invariant
            i <= v@.len(),
            forall|j: int| 0 <= j < i ==> v@[j] != x,
        decreases v@.len() - i,
    {
        if v[i] == x {
            assert(v@[i as int] == x);
            return true;
        }
        i = i + 1;
    }
    false
}

/// What becomes of the collider `created`: when it is a child of one of
/// the obstacles of the map (each given by the entity bits of its
/// children), it becomes an obstacle for the path finder and a navigation
/// mesh is made, the one returned. Only the shooter's map has obstacles.
pub fn propagate_obstacles(state: crate::states::AppState, created: u64, obstacle_children: &Vec<Vec<u64>>) -> (r: Option<crate::map::NavMeshSpec>)
    ensures
        r is Some == (state == crate::states::AppState::Miami && exists|k: int|
            0 <= k < obstacle_children@.len() && #[trigger] obstacle_children@[k]@.contains(created)),
        r matches Some(mesh) ==> mesh == crate::map::spec_obstacle_navmesh(),
{
    if state != crate::states::AppState::Miami {
        return None;
    }
    let mut i: usize = 0;
    while i < obstacle_children.len()
        invariant
            state == crate::states::AppState::Miami,
            i <= obstacle_children@.len(),
            forall|k: int| 0 <= k < i ==> !(#[trigger] obstacle_children@[k]@.contains(created)),
        decreases obstacle_children@.len() - i,
    {
        if contains_u64(&obstacle_children[i], created) {
            assert(obstacle_children@[i as int]@.contains(created));
            return Some(crate::map::NavMeshSpec {
                extent: 1000,
                agent_radius_tenths: 60,
                simplify_tenths: 10,
                merge_steps: 1,
                on_demand: false,
            });
        }
        i = i + 1;
    }
    None
}

/// The colliders created this frame that become obstacles, and whether the
/// navigation mesh must be rebuilt (any collider was created at all).
pub fn propagate_obstacles2(state: crate::states::AppState, created: &Vec<u64>, obstacle_children: &Vec<Vec<u64>>) -> (r: (Vec<u64>, bool))
    ensures
        state != crate::states::AppState::Miami ==> r.0@.len() == 0 && !r.1,
        state == crate::states::AppState::Miami ==> {
            &&& r.1 == (created@.len() != 0)
            &&& forall|e: u64|
                r.0@.contains(e) <==> (created@.contains(e) && exists|k: int|
                    0 <= k < obstacle_children@.len() && #[trigger] obstacle_children@[k]@.contains(e))
        },
{
    let mut marked: Vec<u64> = Vec::new();
    if state != crate::states::AppState::Miami {
        return (marked, false);
    }
    let mut i: usize = 0;
    while i < created.len()
        invariant
            state == crate::states::AppState::Miami,
            i <= created@.len(),
            forall|e: u64|
                marked@.contains(e) <==> (created@.take(i as int).contains(e) && exists|k: int|
                    0 <= k < obstacle_children@.len() && #[trigger] obstacle_children@[k]@.contains(e)),
        decreases created@.len() - i,
    {
        let e = created[i];
        let ghost before = marked@;
        assert(created@.take(i as int + 1) =~= created@.take(i as int).push(e));
        proof {
            crate::seqs::lemma_push_contains(created@.take(i as int), e);
        }
        if propagate_obstacles(state, e, obstacle_children).is_some() {
            marked.push(e);
            proof {
                crate::seqs::lemma_push_contains(before, e);
            }
        }
        i = i + 1;
    }
    assert(created@.take(created@.len() as int) =~= created@);
    (marked, i != 0)
}

/// Marks where Freddy appears.
#[derive(Clone, Copy, PartialEq, Eq, Debug, Default, Structural)]
pub struct FreddySpawner;

/// Marks a Freddy whose own behaviour is switched off.
#[derive(Clone, Copy, PartialEq, Eq, Debug, Default, Structural)]
pub struct DisabledFreddyAi;

/// Marks a fighter waiting for its stage of the boss fight.
#[derive(Clone, Copy, PartialEq, Eq, Debug, Default, Structural)]
pub struct BossFightWait;

/// Marks a fighter that stands its ground and shoots.
#[derive(Clone, Copy, PartialEq, Eq, Debug, Default, Structural)]
pub struct BossFightStandAi;

/// Marks a fighter that runs after the player.
#[derive(Clone, Copy, PartialEq, Eq, Debug, Default, Structural)]
pub struct BossFightChaseAi;

/// Marks Bonnie in the boss fight.
#[derive(Clone, Copy, PartialEq, Eq, Debug, Default, Structural)]
pub struct FighterBonnie;

/// Marks Chicka in the boss fight.
#[derive(Clone, Copy, PartialEq, Eq, Debug, Default, Structural)]
pub struct FighterChicka;

/// Marks Freddy in the boss fight.
#[derive(Clone, Copy, PartialEq, Eq, Debug, Default, Structural)]
pub struct FighterFreddy;

/// Marks where the endoskeletons appear during the boss fight.
#[derive(Clone, Copy, PartialEq, Eq, Debug, Default, Structural)]
pub struct BossfightSpawner;

/// Marks a character that takes no damage.
#[derive(Clone, Copy, PartialEq, Eq, Debug, Default, Structural)]
pub struct InvincibleCharacter;

/// Begin the boss fight: the waiting fighters other than Freddy (each given
/// by its entity bits and whether it is Freddy) stop waiting, and the boss
/// room closes behind the player.
pub fn begin_bossfight(waiting: &Vec<(u64, bool)>, entrances: &Vec<u64>) -> (r: (Vec<u64>, Vec<(u64, crate::map::SensorSetup)>))
    ensures
        forall|e: u64|
            r.0@.contains(e) <==> exists|k: int| 0 <= k < waiting@.len() && #[trigger] waiting@[k].0 == e && !waiting@[k].1,
        r.1@.len() == entrances@.len(),
        forall|i: int| 0 <= i < entrances@.len() ==> #[trigger] r.1@[i] == (entrances@[i], crate::map::spec_bossroom_wall()),
{
    let mut released: Vec<u64> = Vec::new();
    let mut i: usize = 0;
    while i < waiting.len()
        invariant
            i <= waiting@.len(),
            forall|e: u64|
                released@.contains(e) <==> exists|k: int| 0 <= k < i && #[trigger] waiting@[k].0 == e && !waiting@[k].1,
        decreases waiting@.len() - i,
    {
        let (e, is_freddy) = waiting[i];
        let ghost before = released@;
        if !is_freddy {
            released.push(e);
        }
        proof {
            crate::seqs::lemma_push_contains(before, e);
        }
        assert forall|x: u64|
            released@.contains(x) <==> exists|k: int| 0 <= k < i + 1 && #[trigger] waiting@[k].0 == x && !waiting@[k].1 by {
            if exists|k: int| 0 <= k < i + 1 && #[trigger] waiting@[k].0 == x && !waiting@[k].1 {
                let k = choose|k: int| 0 <= k < i + 1 && #[trigger] waiting@[k].0 == x && !waiting@[k].1;
                if k < i {
                    assert(before.contains(x));
                }
            }
        }
        i = i + 1;
    }
    let walls = crate::map::block_bossroom(entrances);
    (released, walls)
}

/// Freddy's stage begins: he loses his invincibility and stops waiting; the
/// other fighters are left as they are.
pub fn setup_freddy_fight2(a: FighterAssignment) -> (r: FighterAssignment)
    ensures
        r == (if a.role == Fighter::Freddy { FighterAssignment { role: Fighter::Freddy, invincible: false, waits: false } } else { a }),
{
    match a.role {
        Fighter::Freddy => FighterAssignment { role: Fighter::Freddy, invincible: false, waits: false },
        _ => a,
    }
}

/// How an enemy of kind `e` looks for the player.
pub open spec fn spec_chaser(e: MiamiEntity) -> ChaserStats {
    ChaserStats {
        seek_range: 300,
        attention_range: 100,
        max_seek_secs: if e == MiamiEntity::Endoskeleton { 1 } else { 20 },
        max_stay_secs: 10,
    }
}

/// Marks the player of the shooter.
#[derive(Clone, Copy, PartialEq, Eq, Debug, Default, Structural)]
pub struct Player;

/// Marks the point a character's sprite and feet turn about.
#[derive(Clone, Copy, PartialEq, Eq, Debug, Default, Structural)]
pub struct CharacterPivotPoint;

/// Marks an enemy that stands at its post.
#[derive(Clone, Copy, PartialEq, Eq, Debug, Default, Structural)]
pub struct CharacterInPlace;

/// Marks a character that neither looks for nor chases the player.
#[derive(Clone, Copy, PartialEq, Eq, Debug, Default, Structural)]
pub struct DummyEntity;

/// A place on the map where a character appears, of which kind and looking
/// which way (in thousandths).
#[derive(Clone, Copy, Debug)]
pub struct MiamiEntitySpawner {
    pub entity_type: MiamiEntity,
    pub look_dir: (i32, i32),
}

/// The parts of a character: the entity bits of the point it turns about
/// and of its sprite.
#[derive(Clone, Copy, PartialEq, Eq, Debug, Structural)]
pub struct CharacterComponents {
    pub pivot: u64,
    pub sprite: u64,
}

/// How a character of the shooter is made: its stats and sprites; its
/// body, a circle of `collider_radius` pixels at depth `depth_centi`; its
/// layers; whether it is the player, whom the camera follows; for an enemy
/// how it looks for the player, the groups its sight looks among, and that
/// it starts at its post; the weapon it holds; and whether it starts
/// invincible and waiting for the boss fight.
#[derive(Clone, Copy, PartialEq, Eq, Debug, Structural)]
pub struct EntitySpawn {
    pub stats: CharacterStats,
    pub sprite: CharacterSprite,
    pub image: MiamiImage,
    pub collider_radius: u32,
    pub depth_centi: i32,
    pub layers: CollisionLayerBits,
    pub is_player: bool,
    pub chaser: Option<ChaserStats>,
    pub seeker_mask: Option<u32>,
    pub in_place: bool,
    pub weapon: Option<crate::weapon::WeaponType>,
    pub invincible_waiting: bool,
}

/// The character made of kind `e`.
pub open spec fn spec_entity_spawn(e: MiamiEntity) -> EntitySpawn {
    let player = e == MiamiEntity::Player;
    EntitySpawn {
        stats: spec_stats(e),
        sprite: spec_to_character(e),
        image: spec_to_handle(e),
        collider_radius: 7,
        depth_centi: -200i32,
        layers: if player {
            CollisionLayerBits { memberships: 0b101000110, filters: 0b101000111 }
        } else {
            CollisionLayerBits { memberships: 0b010010010, filters: 0b010010111 }
        },
        is_player: player,
        chaser: if player { None } else { Some(spec_chaser(e)) },
        seeker_mask: if player { None } else { Some(0b000000011u32) },
        in_place: !player,
        weapon: crate::weapon::spec_enemy_weapon(e),
        invincible_waiting: e.is_boss_spec(),
    }
}

/// Make a character of kind `e`: the player is followed by the camera and
/// starts unarmed; an enemy starts at its post, looks for the player and
/// carries its weapon; the bosses start invincible and wait for the fight.
pub fn spawn_entity(e: MiamiEntity) -> (r: EntitySpawn)
    ensures
        r == spec_entity_spawn(e),
{
    let player = e == MiamiEntity::Player;
    let layers = if player { miami_player_layers() } else { miami_character_layers() };
    let chaser = if player { None } else { Some(e.to_chaser()) };
    let seeker_mask = if player { None } else { Some(miami_seeker_shapecast_layer().memberships) };
    EntitySpawn {
        stats: CharacterStats::from_type(&e),
        sprite: e.to_character(),
        image: e.to_handle(),
        collider_radius: 7,
        depth_centi: -200,
        layers,
        is_player: player,
        chaser,
        seeker_mask,
        in_place: !player,
        weapon: crate::weapon::enemy_weapon(e),
        invincible_waiting: e.is_boss(),
    }
}

/// The mouse buttons the shooter listens to.
#[derive(Clone, Copy, PartialEq, Eq, Debug, Structural)]
pub enum MouseButton {
    Left,
    Right,
    Other,
}

/// A change of a mouse button: which, and whether it was pressed (or
/// released).
#[derive(Clone, Copy, PartialEq, Eq, Debug, Structural)]
pub struct MouseButtonInput {
    pub button: MouseButton,
    pub pressed: bool,
}

/// What the player of the shooter asks for in a frame: the direction to
/// walk in (each axis -1, 0 or 1), whether to throw the weapon and whether
/// to fire.
#[derive(Clone, Copy, PartialEq, Eq, Debug, Structural)]
pub struct PlayerInput {
    pub x: i32,
    pub y: i32,
    pub throw: bool,
    pub shoot: bool,
}

/// The player's wishes from the keys W, A, S, D held and the mouse buttons
/// pressed this frame: a right click throws, a left click fires.
pub fn control_player(w: bool, a: bool, s: bool, d: bool, events: &Vec<MouseButtonInput>) -> (r: PlayerInput)
    ensures
        r.x == (if d { 1int } else { 0int }) - (if a { 1int } else { 0int }),
        r.y == (if w { 1int } else { 0int }) - (if s { 1int } else { 0int }),
        r.throw == exists|k: int| 0 <= k < events@.len() && #[trigger] events@[k] == (MouseButtonInput { button: MouseButton::Right, pressed: true }),
        r.shoot == exists|k: int| 0 <= k < events@.len() && #[trigger] events@[k] == (MouseButtonInput { button: MouseButton::Left, pressed: true }),
{
    let (x, y) = crate::character::control_player(w, s, a, d);
    let mut throw = false;
    let mut shoot = false;
    let mut i: usize = 0;
    while i < events.len()
        invariant
            i <= events@.len(),
            throw == exists|k: int| 0 <= k < i && #[trigger] events@[k] == (MouseButtonInput { button: MouseButton::Right, pressed: true }),
            shoot == exists|k: int| 0 <= k < i && #[trigger] events@[k] == (MouseButtonInput { button: MouseButton::Left, pressed: true }),
        decreases events@.len() - i,
    {
        let e = events[i];
        if e.pressed {
            match e.button {
                MouseButton::Right => throw = true,
                MouseButton::Left => shoot = true,
                MouseButton::Other => {},
            }
        }
        i = i + 1;
    }
    PlayerInput { x, y, throw, shoot }
}

/// The end of the boss fight: every endoskeleton's health drops to nothing;
/// the other characters keep theirs.
pub fn kill_endoskeletons(chars: &mut Vec<(MiamiEntity, i32)>)
    ensures
        final(chars)@.len() == old(chars)@.len(),
        forall|i: int| 0 <= i < old(chars)@.len() ==> #[trigger] final(chars)@[i] == (if old(chars)@[i].0.is_endoskeleton_spec() {
            (old(chars)@[i].0, 0i32)
        } else {
            old(chars)@[i]
        }),
{
    let mut i: usize = 0;
    while i < chars.len()
        invariant
            i <= chars@.len(),
            chars@.len() == old(chars)@.len(),
            forall|k: int| 0 <= k < i ==> #[trigger] chars@[k] == (if old(chars)@[k].0.is_endoskeleton_spec() {
                (old(chars)@[k].0, 0i32)
            } else {
                old(chars)@[k]
            }),
            forall|k: int| i <= k < chars@.len() ==> #[trigger] chars@[k] == old(chars)@[k],
        decreases chars@.len() - i,
    {
        let (e, _hp) = chars[i];
        if e.is_endoskeleton() {
            chars.set(i, (e, 0));
        }
        i = i + 1;
    }
}

/// Present once the shooter's opening transition has played.
#[derive(Clone, Copy, PartialEq, Eq, Debug, Default, Structural)]
pub struct MiamiTransitionShooted;

/// How the shooter begins: whether the transition is marked as played now,
/// and whether the last screenshot flips away with a sound.
#[derive(Clone, Copy, PartialEq, Eq, Debug, Structural)]
pub struct MiamiSetup {
    pub mark_transition: bool,
    pub play_transition: bool,
}

/// The start of the shooter: the opening transition plays only the first
/// time the shooter is entered, and only if there is a screenshot to flip.
pub fn setup(completed: Option<MiamiTransitionShooted>, has_screenshot: bool) -> (r: MiamiSetup)
    ensures
        r.mark_transition == completed is None,
        r.play_transition == (completed is None && has_screenshot),
{
    match completed {
        Some(_) => MiamiSetup { mark_transition: false, play_transition: false },
        None => MiamiSetup { mark_transition: true, play_transition: has_screenshot },
    }
}

/// How long the opening screenshot takes to flip away, in milliseconds.
pub const SCREENSHOT_TRANSITION_TIME: u64 = 500;

/// The opening screenshot `t_ms` milliseconds after it began to flip:
/// once it has flipped away it is removed and the player may move.
pub fn update_screenshot(t_ms: u64) -> (done: bool)
    ensures
        done == (t_ms > SCREENSHOT_TRANSITION_TIME),
{
    t_ms > SCREENSHOT_TRANSITION_TIME
}

/// How long the player lies dead before the game is lost, in milliseconds.
pub const DEFEAT_TIME: u64 = 1000;

/// The player dead for `t_ms` milliseconds: after a second a screenshot is
/// asked for, one at a time, on the way to the defeat screen. Returns
/// whether the screenshot is taken now.
pub fn player_health_watcher<H>(t_ms: u64, shot: &mut crate::states::LastScreenshot<H>) -> (r: bool)
    ensures
        r == (t_ms > DEFEAT_TIME && !old(shot).awaiting),
        *final(shot) == (if t_ms > DEFEAT_TIME { crate::states::spec_requested(*old(shot)) } else { *old(shot) }),
{
    if t_ms > DEFEAT_TIME {
        shot.request()
    } else {
        false
    }
}

/// A character spawner of the map: in the shooter it makes a character of
/// its kind.
pub fn on_entity_spawnpoint(state: crate::states::AppState, spawner: &MiamiEntitySpawner) -> (r: Option<EntitySpawn>)
    ensures
        state == crate::states::AppState::Miami ==> r == Some(spec_entity_spawn(spawner.entity_type)),
        state != crate::states::AppState::Miami ==> r is None,
{
    if state != crate::states::AppState::Miami {
        return None;
    }
    Some(spawn_entity(spawner.entity_type))
}

} // verus!
