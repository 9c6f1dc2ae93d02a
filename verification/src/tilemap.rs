//! Which types the tile-map loader may attach to the objects of a map:
//! those whose names match one of a list of patterns.
use vstd::prelude::*;

verus! {

#[verifier::external_type_specification]
#[verifier::external_body]
pub struct ExRegexSet(regex::RegexSet);

#[verifier::external_type_specification]
#[verifier::external_body]
pub struct ExRegexError(regex::Error);

/// Whether every one of `patterns` is a valid regular expression for the
/// `regex` crate, so that a set can be compiled from them.
pub uninterp spec fn regex_set_compiles(patterns: Seq<Seq<char>>) -> bool;

/// The patterns a compiled set was built from, in order: what the set's
/// `patterns` method hands back.
pub uninterp spec fn regex_set_patterns(set: regex::RegexSet) -> Seq<Seq<char>>;

/// `regex::RegexSet::new` over `patterns`: it compiles the patterns into
/// one set, or fails with an error when one of them is not a valid regular
/// expression. Which patterns are valid is the crate's syntax, named here
/// and not spelled out. A set keeps the patterns it was built from, each as
/// a `String`, in the order given.
#[verifier::external_body]
fn regex_set_new(patterns: &Vec<&str>) -> (r: Result<regex::RegexSet, regex::Error>)
    ensures
        r is Ok <==> regex_set_compiles(patterns@.map_values(|p: &str| p@)),
        r matches Ok(s) ==> regex_set_patterns(s) == patterns@.map_values(|p: &str| p@),
{
    regex::RegexSet::new(patterns.iter())
}

/// The patterns of the type names the map loader may use: the game's own
/// types, the rooms and the camera, text, physics bodies and sensors, and
/// the markers placed in the maps.
pub open spec fn spec_type_patterns() -> Seq<Seq<char>> {
    seq![
        "^game::.*"@,
        "^room::.*"@,
        "^camera::.*"@,
        "^bevy_sprite::text2d::Text2d$"@,
        "^bevy_text::text::TextColor$"@,
        "^.*::RigidBody$"@,
        "^.*::CollisionLayers$"@,
        "^.*::Sensor$"@,
        "^.*::TilemapShadow$"@,
        "^.*::TileShadow$"@,
        "^.*::SpawnPoint$"@,
        "^.*::StopTrigger$"@,
        "^.*::NextTrigger$"@,
        "^.*::CameraCenter$"@,
        "^.*::SpawnPoint$"@,
        "^.*::MiamiSpawnPoint$"@,
    ]
}

/// The patterns of the type names the map loader may use, in order.
pub fn tiled_type_patterns() -> (r: Vec<&'static str>)
    ensures
        r@.map_values(|p: &str| p@) == spec_type_patterns(),
{
    let r = vec![
        r"^game::.*",
        r"^room::.*",
        r"^camera::.*",
        r"^bevy_sprite::text2d::Text2d$",
        r"^bevy_text::text::TextColor$",
        r"^.*::RigidBody$",
        r"^.*::CollisionLayers$",
        r"^.*::Sensor$",
        r"^.*::TilemapShadow$",
        r"^.*::TileShadow$",
        r"^.*::SpawnPoint$",
        r"^.*::StopTrigger$",
        r"^.*::NextTrigger$",
        r"^.*::CameraCenter$",
        r"^.*::SpawnPoint$",
        r"^.*::MiamiSpawnPoint$",
    ];
    assert(r@.map_values(|p: &str| p@) =~= spec_type_patterns());
    r
}

/// Why the map setup failed.
#[derive(Clone, Copy, PartialEq, Eq, Debug, Structural)]
pub enum MapError {
    /// A type-name pattern is not a valid regular expression.
    InvalidPattern,
}

/// The filter made from the outcome of compiling the patterns: the set
/// itself, or the error of an invalid pattern.
pub fn filter_from(compiled: Result<regex::RegexSet, regex::Error>) -> (r: Result<regex::RegexSet, MapError>)
    ensures
        compiled is Ok <==> r is Ok,
        r matches Ok(s) ==> compiled matches Ok(c) && s == c,
        r matches Err(e) ==> e == MapError::InvalidPattern,
{
    match compiled {
        Ok(set) => Ok(set),
        Err(_) => Err(MapError::InvalidPattern),
    }
}

/// The compiled filter of the type names the map loader may use: a set
/// built from exactly those patterns, in order.
pub fn tiled_types_filter() -> (r: Result<regex::RegexSet, MapError>)
    ensures
        r is Ok <==> regex_set_compiles(spec_type_patterns()),
        r matches Ok(s) ==> regex_set_patterns(s) == spec_type_patterns(),
        r matches Err(e) ==> e == MapError::InvalidPattern,
{
    let patterns = tiled_type_patterns();
    filter_from(regex_set_new(&patterns))
}

} // verus!
