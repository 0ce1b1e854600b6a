use vstd::prelude::*;
use crate::error::FormatError;
use crate::params::{
    armor_count_pos, battle_fits, lemma_battle_framing, lemma_commandable_framing,
    lemma_fixed_blocks_framing, lemma_trainable_framing, battle_len, building_params_at, commandable_fits, commandable_len,
    damage_graphic_at, is_battle_params_at, is_commandable_params_at, is_trainable_params_at,
    motion_params_at, projectile_params_at, read_battle_params, read_building_params,
    read_commandable_params, read_damage_graphic, read_motion_params, read_projectile_params,
    read_resource_storage, read_trainable_params, resource_storage_at, BattleParams,
    BuildingParams, CommandableParams, DamageGraphic, MotionParams, ProjectileParams,
    ResourceStorage, TrainableParams, BUILDING_LEN, DAMAGE_GRAPHIC_LEN, MOTION_LEN,
    PROJECTILE_LEN, RESOURCE_STORAGE_LEN, TRAINABLE_LEN,
};
use crate::stream::{
    flag_at, get_flag, get_i16, get_i32, get_i8, get_u32, get_u8, i16_at, i32_at, i8_at, le16,
    read_i16, read_i8, read_sized_str, read_u16, read_u8, reads_fixed, skip, utf8_text, u32_at, ByteStream, F32Bits,
};
use crate::unit_type::{
    category_of, code_of, ends_after_common, has_spare_word, is_category_code, lemma_classify,
    spec_has_battle_params, spec_has_building_params, spec_has_commandable_params,
    spec_has_motion_params, spec_has_projectile_params, spec_has_trainable_params, UnitType,
};

verus! {

pub const COMMON_ATTRIBUTES_LEN: usize = 113;

/// The fields of the common block that have a fixed place: identity,
/// size, flags, and graphic and sound references.
#[derive(Debug, Clone, Copy, PartialEq, Eq)]
pub struct CommonAttributes {
    pub id: i16,
    pub language_dll_name: i16,
    pub language_dll_creation: i16,
    pub class: i16,
    pub standing_graphic: i16,
    pub dying_graphics: (i16, i16),
    pub death_mode: i8,
    pub hit_points: i16,
    pub line_of_sight: F32Bits,
    pub garrison_capability: i8,
    pub collision_size_x: F32Bits,
    pub collision_size_y: F32Bits,
    pub collision_size_z: F32Bits,
    pub train_sound: i16,
    pub dead_unit_id: i16,
    pub placement_mode: i8,
    pub air_mode: i8,
    pub icon_id: i16,
    pub hide_in_editor: bool,
    pub enabled: bool,
    pub placement_side_terrain: (i16, i16),
    pub placement_terrain: (i16, i16),
    pub clearance_size_x: F32Bits,
    pub clearance_size_y: F32Bits,
    pub hill_mode: i8,
    pub visible_in_fog: bool,
    pub terrain_restriction: i16,
    pub fly_mode: i8,
    pub resource_capacity: i16,
    pub resource_decay: F32Bits,
    pub blast_defense_level: i8,
    pub sub_type: i8,
    pub interaction_mode: i8,
    pub minimap_mode: i8,
    pub command_attribute: i8,
    pub minimap_color: u8,
    pub language_dll_help: i32,
    pub language_dll_hotkey_text: i32,
    pub hotkey: i32,
    pub unselectable: bool,
    pub enable_auto_gather: bool,
    pub auto_gather_mode: i8,
    pub auto_gather_id: i8,
    pub selection_effect: i8,
    pub editor_selection_color: u8,
    pub selection_shape_size_x: F32Bits,
    pub selection_shape_size_y: F32Bits,
    pub selection_shape_size_z: F32Bits,
}

/// The fixed-place fields at `p`; the bytes at offsets 43 and 44, and 78 to
/// 81, are unused.
pub open spec fn common_attributes_at(d: Seq<u8>, p: int) -> CommonAttributes {
    CommonAttributes {
        id: i16_at(d, p),
        language_dll_name: i16_at(d, p + 2),
        language_dll_creation: i16_at(d, p + 4),
        class: i16_at(d, p + 6),
        standing_graphic: i16_at(d, p + 8),
        dying_graphics: (i16_at(d, p + 10), i16_at(d, p + 12)),
        death_mode: i8_at(d, p + 14),
        hit_points: i16_at(d, p + 15),
        line_of_sight: u32_at(d, p + 17),
        garrison_capability: i8_at(d, p + 21),
        collision_size_x: u32_at(d, p + 22),
        collision_size_y: u32_at(d, p + 26),
        collision_size_z: u32_at(d, p + 30),
        train_sound: i16_at(d, p + 34),
        dead_unit_id: i16_at(d, p + 36),
        placement_mode: i8_at(d, p + 38),
        air_mode: i8_at(d, p + 39),
        icon_id: i16_at(d, p + 40),
        hide_in_editor: flag_at(d, p + 42),
        enabled: flag_at(d, p + 45),
        placement_side_terrain: (i16_at(d, p + 46), i16_at(d, p + 48)),
        placement_terrain: (i16_at(d, p + 50), i16_at(d, p + 52)),
        clearance_size_x: u32_at(d, p + 54),
        clearance_size_y: u32_at(d, p + 58),
        hill_mode: i8_at(d, p + 62),
        visible_in_fog: flag_at(d, p + 63),
        terrain_restriction: i16_at(d, p + 64),
        fly_mode: i8_at(d, p + 66),
        resource_capacity: i16_at(d, p + 67),
        resource_decay: u32_at(d, p + 69),
        blast_defense_level: i8_at(d, p + 73),
        sub_type: i8_at(d, p + 74),
        interaction_mode: i8_at(d, p + 75),
        minimap_mode: i8_at(d, p + 76),
        command_attribute: i8_at(d, p + 77),
        minimap_color: d[p + 82],
        language_dll_help: i32_at(d, p + 83),
        language_dll_hotkey_text: i32_at(d, p + 87),
        hotkey: i32_at(d, p + 91),
        unselectable: flag_at(d, p + 95),
        enable_auto_gather: flag_at(d, p + 96),
        auto_gather_mode: i8_at(d, p + 97),
        auto_gather_id: i8_at(d, p + 98),
        selection_effect: i8_at(d, p + 99),
        editor_selection_color: d[p + 100],
        selection_shape_size_x: u32_at(d, p + 101),
        selection_shape_size_y: u32_at(d, p + 105),
        selection_shape_size_z: u32_at(d, p + 109),
    }
}

/// Reads the fixed-place fields of the common block.
pub fn read_common_attributes(stream: &mut ByteStream) -> (r: Result<CommonAttributes, FormatError>)
    ensures
        reads_fixed(*old(stream), *final(stream), r, COMMON_ATTRIBUTES_LEN as int,
            common_attributes_at(old(stream).data@, old(stream).pos as int)),
{
    if !stream.can_read(COMMON_ATTRIBUTES_LEN) {
        return Err(FormatError::UnexpectedEndOfStream);
    }
    let d = stream.data.as_slice();
    let p = stream.pos;
    let v = CommonAttributes {
        id: get_i16(d, p),
        language_dll_name: get_i16(d, p + 2),
        language_dll_creation: get_i16(d, p + 4),
        class: get_i16(d, p + 6),
        standing_graphic: get_i16(d, p + 8),
        dying_graphics: (get_i16(d, p + 10), get_i16(d, p + 12)),
        death_mode: get_i8(d, p + 14),
        hit_points: get_i16(d, p + 15),
        line_of_sight: get_u32(d, p + 17),
        garrison_capability: get_i8(d, p + 21),
        collision_size_x: get_u32(d, p + 22),
        collision_size_y: get_u32(d, p + 26),
        collision_size_z: get_u32(d, p + 30),
        train_sound: get_i16(d, p + 34),
        dead_unit_id: get_i16(d, p + 36),
        placement_mode: get_i8(d, p + 38),
        air_mode: get_i8(d, p + 39),
        icon_id: get_i16(d, p + 40),
        hide_in_editor: get_flag(d, p + 42),
        enabled: get_flag(d, p + 45),
        placement_side_terrain: (get_i16(d, p + 46), get_i16(d, p + 48)),
        placement_terrain: (get_i16(d, p + 50), get_i16(d, p + 52)),
        clearance_size_x: get_u32(d, p + 54),
        clearance_size_y: get_u32(d, p + 58),
        hill_mode: get_i8(d, p + 62),
        visible_in_fog: get_flag(d, p + 63),
        terrain_restriction: get_i16(d, p + 64),
        fly_mode: get_i8(d, p + 66),
        resource_capacity: get_i16(d, p + 67),
        resource_decay: get_u32(d, p + 69),
        blast_defense_level: get_i8(d, p + 73),
        sub_type: get_i8(d, p + 74),
        interaction_mode: get_i8(d, p + 75),
        minimap_mode: get_i8(d, p + 76),
        command_attribute: get_i8(d, p + 77),
        minimap_color: get_u8(d, p + 82),
        language_dll_help: get_i32(d, p + 83),
        language_dll_hotkey_text: get_i32(d, p + 87),
        hotkey: get_i32(d, p + 91),
        unselectable: get_flag(d, p + 95),
        enable_auto_gather: get_flag(d, p + 96),
        auto_gather_mode: get_i8(d, p + 97),
        auto_gather_id: get_i8(d, p + 98),
        selection_effect: get_i8(d, p + 99),
        editor_selection_color: get_u8(d, p + 100),
        selection_shape_size_x: get_u32(d, p + 101),
        selection_shape_size_y: get_u32(d, p + 105),
        selection_shape_size_z: get_u32(d, p + 109),
    };
    stream.pos = p + COMMON_ATTRIBUTES_LEN;
    Ok(v)
}

/// A decoded unit record: the common block, then the blocks its category
/// carries.
#[derive(Debug, PartialEq, Eq)]
pub struct Unit {
    pub unit_type: UnitType,
    pub attributes: CommonAttributes,
    pub resource_storage: Vec<ResourceStorage>,
    pub damage_graphics: Vec<DamageGraphic>,
    pub selection_sound: i16,
    pub dying_sound: i16,
    pub attack_mode: i8,
    pub name: String,
    pub id2: i16,
    pub motion_params: Option<MotionParams>,
    pub commandable_params: Option<CommandableParams>,
    pub battle_params: Option<BattleParams>,
    pub projectile_params: Option<ProjectileParams>,
    pub trainable_params: Option<TrainableParams>,
    pub building_params: Option<BuildingParams>,
}

// Layout of the common block of the record at `p`.

/// The length of the name, which stands much later in the record.
pub open spec fn name_len_at(d: Seq<u8>, p: int) -> int {
    le16(d, p + 1)
}

pub open spec fn storage_pos(p: int) -> int {
    p + 3 + COMMON_ATTRIBUTES_LEN
}

pub open spec fn damage_count_pos(p: int) -> int {
    storage_pos(p) + 3 * RESOURCE_STORAGE_LEN
}

pub open spec fn damage_count_at(d: Seq<u8>, p: int) -> int {
    d[damage_count_pos(p)] as int
}

/// Where the two sounds, the attack mode and an unused byte stand.
pub open spec fn sounds_pos(d: Seq<u8>, p: int) -> int {
    damage_count_pos(p) + 1 + DAMAGE_GRAPHIC_LEN * damage_count_at(d, p)
}

pub open spec fn name_pos(d: Seq<u8>, p: int) -> int {
    sounds_pos(d, p) + 6
}

pub open spec fn id2_pos(d: Seq<u8>, p: int) -> int {
    name_pos(d, p) + name_len_at(d, p)
}

/// Where the common block ends.
pub open spec fn common_end(d: Seq<u8>, p: int) -> int {
    id2_pos(d, p) + 2
}

pub open spec fn name_bytes(d: Seq<u8>, p: int) -> Seq<u8> {
    d.subrange(name_pos(d, p), id2_pos(d, p))
}

pub open spec fn resource_storage_seq(d: Seq<u8>, p: int) -> Seq<ResourceStorage> {
    seq![
        resource_storage_at(d, storage_pos(p)),
        resource_storage_at(d, storage_pos(p) + RESOURCE_STORAGE_LEN),
        resource_storage_at(d, storage_pos(p) + 2 * RESOURCE_STORAGE_LEN),
    ]
}

/// `n` damage graphics laid end to end from `p`.
pub open spec fn damage_graphics_at(d: Seq<u8>, p: int, n: nat) -> Seq<DamageGraphic> {
    Seq::new(n, |i: int| damage_graphic_at(d, p + DAMAGE_GRAPHIC_LEN * i))
}

// Layout of the optional blocks, which follow one another in a fixed order,
// each present when the category has the capability.

pub open spec fn motion_pos(d: Seq<u8>, p: int, t: UnitType) -> int {
    common_end(d, p) + if has_spare_word(t) { 4int } else { 0 }
}

pub open spec fn commandable_pos(d: Seq<u8>, p: int, t: UnitType) -> int {
    motion_pos(d, p, t) + if spec_has_motion_params(t) { MOTION_LEN as int } else { 0 }
}

pub open spec fn battle_pos(d: Seq<u8>, p: int, t: UnitType) -> int {
    let q = commandable_pos(d, p, t);
    q + if spec_has_commandable_params(t) { commandable_len(d, q) } else { 0 }
}

pub open spec fn projectile_pos(d: Seq<u8>, p: int, t: UnitType) -> int {
    let q = battle_pos(d, p, t);
    q + if spec_has_battle_params(t) { battle_len(d, q) } else { 0 }
}

pub open spec fn trainable_pos(d: Seq<u8>, p: int, t: UnitType) -> int {
    projectile_pos(d, p, t) + if spec_has_projectile_params(t) { PROJECTILE_LEN as int } else { 0 }
}

pub open spec fn building_pos(d: Seq<u8>, p: int, t: UnitType) -> int {
    trainable_pos(d, p, t) + if spec_has_trainable_params(t) { TRAINABLE_LEN as int } else { 0 }
}

pub open spec fn blocks_end(d: Seq<u8>, p: int, t: UnitType) -> int {
    building_pos(d, p, t) + if spec_has_building_params(t) { BUILDING_LEN as int } else { 0 }
}

/// Whether the bytes hold every optional block that category `t` carries.
pub open spec fn blocks_fit(d: Seq<u8>, p: int, t: UnitType) -> bool {
    &&& has_spare_word(t) ==> common_end(d, p) + 4 <= d.len()
    &&& spec_has_motion_params(t) ==> motion_pos(d, p, t) + MOTION_LEN <= d.len()
    &&& spec_has_commandable_params(t) ==> commandable_fits(d, commandable_pos(d, p, t))
    &&& spec_has_battle_params(t) ==> battle_fits(d, battle_pos(d, p, t))
    &&& spec_has_projectile_params(t) ==> projectile_pos(d, p, t) + PROJECTILE_LEN <= d.len()
    &&& spec_has_trainable_params(t) ==> trainable_pos(d, p, t) + TRAINABLE_LEN <= d.len()
    &&& spec_has_building_params(t) ==> building_pos(d, p, t) + BUILDING_LEN <= d.len()
}

/// Where the record at `p`, of category `t`, ends.
pub open spec fn record_end(d: Seq<u8>, p: int, t: UnitType) -> int {
    if ends_after_common(t) { common_end(d, p) } else { blocks_end(d, p, t) }
}

/// The category whose code is the byte at `p`.
pub open spec fn category_at(d: Seq<u8>, p: int) -> UnitType {
    match category_of(d[p]) {
        Ok(t) => t,
        Err(_) => UnitType::Unknown25,
    }
}

/// Whether the bytes hold the common block at `p` up to the end of the name.
pub open spec fn fits_through_name(d: Seq<u8>, p: int) -> bool {
    damage_count_pos(p) + 1 <= d.len() && id2_pos(d, p) <= d.len()
}

/// The outcome of decoding the record at `p`: where it ends, or the first
/// error met in reading it front to back.
pub open spec fn unit_outcome(d: Seq<u8>, p: int) -> Result<int, FormatError> {
    let t = category_at(d, p);
    if p + 1 > d.len() {
        Err(FormatError::UnexpectedEndOfStream)
    } else if !is_category_code(d[p]) {
        Err(FormatError::InvalidCategoryTag(d[p]))
    } else if !fits_through_name(d, p) {
        Err(FormatError::UnexpectedEndOfStream)
    } else if utf8_text(name_bytes(d, p)) is None {
        Err(FormatError::InvalidStringEncoding)
    } else if common_end(d, p) > d.len() {
        Err(FormatError::UnexpectedEndOfStream)
    } else if !ends_after_common(t) && !blocks_fit(d, p, t) {
        Err(FormatError::UnexpectedEndOfStream)
    } else {
        Ok(record_end(d, p, t))
    }
}

/// Whether a record of category `t` holds the motion block, and so on: the
/// capability, unless the record ends after the common block.
pub open spec fn attaches_motion(t: UnitType) -> bool {
    !ends_after_common(t) && spec_has_motion_params(t)
}

pub open spec fn attaches_commandable(t: UnitType) -> bool {
    !ends_after_common(t) && spec_has_commandable_params(t)
}

pub open spec fn attaches_battle(t: UnitType) -> bool {
    !ends_after_common(t) && spec_has_battle_params(t)
}

pub open spec fn attaches_projectile(t: UnitType) -> bool {
    !ends_after_common(t) && spec_has_projectile_params(t)
}

pub open spec fn attaches_trainable(t: UnitType) -> bool {
    !ends_after_common(t) && spec_has_trainable_params(t)
}

pub open spec fn attaches_building(t: UnitType) -> bool {
    !ends_after_common(t) && spec_has_building_params(t)
}

/// Whether `u` is the unit recorded at `p`.
pub open spec fn is_unit_at(u: Unit, d: Seq<u8>, p: int) -> bool {
    let t = u.unit_type;
    &&& code_of(t) == d[p]
    &&& u.attributes == common_attributes_at(d, p + 3)
    &&& u.resource_storage@ == resource_storage_seq(d, p)
    &&& u.damage_graphics@ == damage_graphics_at(
        d,
        damage_count_pos(p) + 1,
        damage_count_at(d, p) as nat,
    )
    &&& u.selection_sound == i16_at(d, sounds_pos(d, p))
    &&& u.dying_sound == i16_at(d, sounds_pos(d, p) + 2)
    &&& u.attack_mode == i8_at(d, sounds_pos(d, p) + 4)
    &&& utf8_text(name_bytes(d, p)) == Some(u.name@)
    &&& u.id2 == i16_at(d, id2_pos(d, p))
    &&& u.motion_params == if attaches_motion(t) {
        Some(motion_params_at(d, motion_pos(d, p, t)))
    } else {
        None
    }
    &&& match u.commandable_params {
        Some(c) => attaches_commandable(t) && is_commandable_params_at(
            c,
            d,
            commandable_pos(d, p, t),
        ),
        None => !attaches_commandable(t),
    }
    &&& match u.battle_params {
        Some(b) => attaches_battle(t) && is_battle_params_at(b, d, battle_pos(d, p, t)),
        None => !attaches_battle(t),
    }
    &&& u.projectile_params == if attaches_projectile(t) {
        Some(projectile_params_at(d, projectile_pos(d, p, t)))
    } else {
        None
    }
    &&& match u.trainable_params {
        Some(x) => attaches_trainable(t) && is_trainable_params_at(x, d, trainable_pos(d, p, t)),
        None => !attaches_trainable(t),
    }
    &&& u.building_params == if attaches_building(t) {
        Some(building_params_at(d, building_pos(d, p, t)))
    } else {
        None
    }
}

/// Reads `n` damage graphics.
fn read_damage_graphics(stream: &mut ByteStream, n: u8) -> (r: Result<Vec<DamageGraphic>, FormatError>)
    requires
        old(stream).pos <= old(stream).data@.len(),
    ensures
        final(stream).data@ == old(stream).data@,
        match r {
            Ok(v) => old(stream).holds(DAMAGE_GRAPHIC_LEN * n) && v@ == damage_graphics_at(
                old(stream).data@,
                old(stream).pos as int,
                n as nat,
            ) && final(stream).pos == old(stream).pos + DAMAGE_GRAPHIC_LEN * n,
            Err(e) => !old(stream).holds(DAMAGE_GRAPHIC_LEN * n) && e
                == FormatError::UnexpectedEndOfStream,
        },
{
    let ghost d0 = stream.data@;
    let ghost p0 = stream.pos as int;
    let mut v: Vec<DamageGraphic> = Vec::new();
    let mut i: u8 = 0;
    while i < n
        invariant
            stream.data@ == d0,
            d0 == old(stream).data@,
            p0 == old(stream).pos,
            i <= n,
            stream.pos == p0 + DAMAGE_GRAPHIC_LEN * i,
            stream.pos <= d0.len(),
            v@ == damage_graphics_at(d0, p0, i as nat),
        decreases n - i,
    {
        match read_damage_graphic(stream) {
            Ok(g) => {
                v.push(g);
            },
            Err(e) => {
                return Err(e);
            },
        }
        i = i + 1;
        assert(v@ =~= damage_graphics_at(d0, p0, i as nat));
    }
    Ok(v)
}

/// Decodes the unit record at the stream's position and moves the position
/// past it. The record holds, in order: the category tag, the length of the
/// name, the common attributes, three resource storages, the damage graphics
/// after their one-byte count, two sounds, the attack mode and an unused
/// byte, the name, and a second id. Tree and graphic-effect records end
/// there; flag and unknown-25 records hold one more unused 4-byte value.
/// The optional blocks follow in the order motion, commandable, battle,
/// projectile, trainable, building, each when the category has it.
#[verifier::loop_isolation(false)]
pub fn read_unit(stream: &mut ByteStream) -> (r: Result<Unit, FormatError>)
    ensures
        final(stream).data@ == old(stream).data@,
        match r {
            Ok(u) => unit_outcome(old(stream).data@, old(stream).pos as int) == Ok::<
                int,
                FormatError,
            >(final(stream).pos as int) && is_unit_at(u, old(stream).data@, old(stream).pos as int),
            Err(e) => unit_outcome(old(stream).data@, old(stream).pos as int) == Err::<
                int,
                FormatError,
            >(e),
        },
{
    let ghost d = stream.data@;
    let ghost p = stream.pos as int;
    let tag = match read_u8(stream) {
        Ok(v) => v,
        Err(e) => {
            return Err(e);
        },
    };
    let unit_type = match UnitType::from_u8(tag) {
        Ok(t) => t,
        Err(e) => {
            return Err(e);
        },
    };
    assert(unit_type == category_at(d, p));
    let name_length = match read_u16(stream) {
        Ok(v) => v,
        Err(e) => {
            return Err(e);
        },
    };
    let attributes = match read_common_attributes(stream) {
        Ok(v) => v,
        Err(e) => {
            return Err(e);
        },
    };
    let mut resource_storage: Vec<ResourceStorage> = Vec::new();
    let mut k: usize = 0;
    while k < 3
        invariant
            stream.data@ == d,
            k <= 3,
            stream.pos == storage_pos(p) + RESOURCE_STORAGE_LEN * k,
            stream.pos <= d.len(),
            resource_storage@ == resource_storage_seq(d, p).take(k as int),
        decreases 3 - k,
    {
        match read_resource_storage(stream) {
            Ok(v) => {
                resource_storage.push(v);
            },
            Err(e) => {
                return Err(e);
            },
        }
        k = k + 1;
        assert(resource_storage@ =~= resource_storage_seq(d, p).take(k as int));
    }
    assert(resource_storage@ =~= resource_storage_seq(d, p));
    let damage_count = match read_u8(stream) {
        Ok(v) => v,
        Err(e) => {
            return Err(e);
        },
    };
    let damage_graphics = match read_damage_graphics(stream, damage_count) {
        Ok(v) => v,
        Err(e) => {
            return Err(e);
        },
    };
    let selection_sound = match read_i16(stream) {
        Ok(v) => v,
        Err(e) => {
            return Err(e);
        },
    };
    let dying_sound = match read_i16(stream) {
        Ok(v) => v,
        Err(e) => {
            return Err(e);
        },
    };
    let attack_mode = match read_i8(stream) {
        Ok(v) => v,
        Err(e) => {
            return Err(e);
        },
    };
    match skip(stream, 1) {
        Ok(()) => {},
        Err(e) => {
            return Err(e);
        },
    }
    let name = match read_sized_str(stream, name_length as usize) {
        Ok(v) => v,
        Err(e) => {
            return Err(e);
        },
    };
    let id2 = match read_i16(stream) {
        Ok(v) => v,
        Err(e) => {
            return Err(e);
        },
    };
    assert(stream.pos == common_end(d, p));
    match unit_type {
        UnitType::Tree | UnitType::GraphicEffect => {
            return Ok(
                Unit {
                    unit_type,
                    attributes,
                    resource_storage,
                    damage_graphics,
                    selection_sound,
                    dying_sound,
                    attack_mode,
                    name,
                    id2,
                    motion_params: None,
                    commandable_params: None,
                    battle_params: None,
                    projectile_params: None,
                    trainable_params: None,
                    building_params: None,
                },
            );
        },
        UnitType::Flag | UnitType::Unknown25 => {
            match skip(stream, 4) {
                Ok(()) => {},
                Err(e) => {
                    return Err(e);
                },
            }
        },
        _ => {},
    }
    let t = unit_type;
    assert(stream.pos == motion_pos(d, p, t));
    let motion_params = if unit_type.has_motion_params() {
        match read_motion_params(stream) {
            Ok(v) => Some(v),
            Err(e) => {
                return Err(e);
            },
        }
    } else {
        None
    };
    assert(stream.pos == commandable_pos(d, p, t));
    let commandable_params = if unit_type.has_commandable_params() {
        match read_commandable_params(stream) {
            Ok(v) => Some(v),
            Err(e) => {
                return Err(e);
            },
        }
    } else {
        None
    };
    assert(stream.pos == battle_pos(d, p, t));
    let battle_params = if unit_type.has_battle_params() {
        match read_battle_params(stream) {
            Ok(v) => Some(v),
            Err(e) => {
                return Err(e);
            },
        }
    } else {
        None
    };
    assert(stream.pos == projectile_pos(d, p, t));
    let projectile_params = if unit_type.has_projectile_params() {
        match read_projectile_params(stream) {
            Ok(v) => Some(v),
            Err(e) => {
                return Err(e);
            },
        }
    } else {
        None
    };
    assert(stream.pos == trainable_pos(d, p, t));
    let trainable_params = if unit_type.has_trainable_params() {
        match read_trainable_params(stream) {
            Ok(v) => Some(v),
            Err(e) => {
                return Err(e);
            },
        }
    } else {
        None
    };
    assert(stream.pos == building_pos(d, p, t));
    let building_params = if unit_type.has_building_params() {
        match read_building_params(stream) {
            Ok(v) => Some(v),
            Err(e) => {
                return Err(e);
            },
        }
    } else {
        None
    };
    Ok(
        Unit {
            unit_type,
            attributes,
            resource_storage,
            damage_graphics,
            selection_sound,
            dying_sound,
            attack_mode,
            name,
            id2,
            motion_params,
            commandable_params,
            battle_params,
            projectile_params,
            trainable_params,
            building_params,
        },
    )
}

/// The category of a decoded unit is the one its tag byte encodes.
proof fn lemma_unit_category(u: Unit, d: Seq<u8>, p: int)
    requires
        is_unit_at(u, d, p),
    ensures
        u.unit_type == category_at(d, p),
        is_category_code(d[p]),
{
    lemma_classify(u.unit_type, d[p]);
}

/// A tree or graphic-effect record ends right after its common block, holds
/// none of the optional blocks, and decodes the same whatever bytes follow it.
pub proof fn lemma_common_only_records(d: Seq<u8>, p: int, e: Seq<u8>, u: Unit)
    requires
        0 <= p,
        unit_outcome(d, p) is Ok,
        ends_after_common(category_at(d, p)),
    ensures
        unit_outcome(d, p) == Ok::<int, FormatError>(common_end(d, p)),
        unit_outcome(d + e, p) == unit_outcome(d, p),
        is_unit_at(u, d, p) ==> {
            &&& u.motion_params is None
            &&& u.commandable_params is None
            &&& u.battle_params is None
            &&& u.projectile_params is None
            &&& u.trainable_params is None
            &&& u.building_params is None
        },
{
    let d2 = d + e;
    assert(d2[p] == d[p]);
    assert(d2[p + 1] == d[p + 1]);
    assert(d2[p + 2] == d[p + 2]);
    assert(d2[damage_count_pos(p)] == d[damage_count_pos(p)]);
    assert(name_bytes(d2, p) =~= name_bytes(d, p));
    assert(category_at(d2, p) == category_at(d, p));
    if is_unit_at(u, d, p) {
        lemma_unit_category(u, d, p);
    }
}

/// A flag or unknown-25 record ends four bytes after its common block and
/// holds none of the optional blocks.
pub proof fn lemma_spare_word_records(d: Seq<u8>, p: int, u: Unit)
    requires
        unit_outcome(d, p) is Ok,
        has_spare_word(category_at(d, p)),
    ensures
        unit_outcome(d, p) == Ok::<int, FormatError>(common_end(d, p) + 4),
        is_unit_at(u, d, p) ==> {
            &&& u.motion_params is None
            &&& u.commandable_params is None
            &&& u.battle_params is None
            &&& u.projectile_params is None
            &&& u.trainable_params is None
            &&& u.building_params is None
        },
{
    if is_unit_at(u, d, p) {
        lemma_unit_category(u, d, p);
    }
}

/// A building record holds the motion, commandable, battle, trainable and
/// building blocks, in that order one after the other, and no projectile block.
pub proof fn lemma_building_records(d: Seq<u8>, p: int, u: Unit)
    requires
        is_unit_at(u, d, p),
        u.unit_type == UnitType::Building,
        unit_outcome(d, p) is Ok,
    ensures
        u.motion_params is Some,
        u.commandable_params is Some,
        u.battle_params is Some,
        u.projectile_params is None,
        u.trainable_params is Some,
        u.building_params is Some,
        commandable_pos(d, p, u.unit_type) == motion_pos(d, p, u.unit_type) + MOTION_LEN,
        motion_pos(d, p, u.unit_type) < commandable_pos(d, p, u.unit_type) < battle_pos(
            d,
            p,
            u.unit_type,
        ) < trainable_pos(d, p, u.unit_type) < building_pos(d, p, u.unit_type),
        trainable_pos(d, p, u.unit_type) == projectile_pos(d, p, u.unit_type),
{
    lemma_unit_category(u, d, p);
}

/// A record that decodes is decoded the same, and ends at the same place,
/// whatever bytes follow it: the decoder reads nothing past its end.
pub proof fn lemma_trailing_bytes_ignored(d: Seq<u8>, p: int, e: Seq<u8>)
    requires
        0 <= p,
        unit_outcome(d, p) is Ok,
    ensures
        unit_outcome(d + e, p) == unit_outcome(d, p),
{
    let d2 = d + e;
    let t = category_at(d, p);
    assert(d2[p] == d[p]);
    assert(d2[p + 1] == d[p + 1]);
    assert(d2[p + 2] == d[p + 2]);
    assert(d2[damage_count_pos(p)] == d[damage_count_pos(p)]);
    assert(name_bytes(d2, p) =~= name_bytes(d, p));
    assert(category_at(d2, p) == t);
    assert(common_end(d2, p) == common_end(d, p));
    if !ends_after_common(t) {
        assert(motion_pos(d2, p, t) == motion_pos(d, p, t));
        assert(commandable_pos(d2, p, t) == commandable_pos(d, p, t));
        let q = commandable_pos(d, p, t);
        if spec_has_commandable_params(t) {
            assert(d2[q + 20] == d[q + 20]);
            assert(d2[q + 21] == d[q + 21]);
            assert(commandable_len(d2, q) == commandable_len(d, q));
        }
        assert(battle_pos(d2, p, t) == battle_pos(d, p, t));
        let b = battle_pos(d, p, t);
        if spec_has_battle_params(t) {
            assert(d2[b + 1] == d[b + 1]);
            assert(d2[b + 2] == d[b + 2]);
            assert(armor_count_pos(d2, b) == armor_count_pos(d, b));
            let a = armor_count_pos(d, b);
            assert(d2[a] == d[a]);
            assert(d2[a + 1] == d[a + 1]);
            assert(battle_len(d2, b) == battle_len(d, b));
        }
        assert(projectile_pos(d2, p, t) == projectile_pos(d, p, t));
        assert(blocks_end(d2, p, t) == blocks_end(d, p, t));
        assert(blocks_fit(d2, p, t));
    }
}

/// The unit decoded from a record is also the unit recorded there once more
/// bytes follow it.
pub proof fn lemma_trailing_bytes_keep_unit(d: Seq<u8>, p: int, e: Seq<u8>, u: Unit)
    requires
        0 <= p,
        unit_outcome(d, p) is Ok,
        is_unit_at(u, d, p),
    ensures
        is_unit_at(u, d + e, p),
{
    let d2 = d + e;
    lemma_trailing_bytes_ignored(d, p, e);
    lemma_unit_category(u, d, p);
    let t = category_at(d, p);
    assert(d2[p] == d[p]);
    assert(d2[p + 1] == d[p + 1]);
    assert(d2[p + 2] == d[p + 2]);
    assert(d2[damage_count_pos(p)] == d[damage_count_pos(p)]);
    assert(name_bytes(d2, p) =~= name_bytes(d, p));
    assert(common_attributes_at(d2, p + 3) == common_attributes_at(d, p + 3));
    assert(resource_storage_seq(d2, p) =~= resource_storage_seq(d, p));
    let n = damage_count_at(d, p) as nat;
    assert(damage_graphics_at(d2, damage_count_pos(p) + 1, n) =~= damage_graphics_at(
        d,
        damage_count_pos(p) + 1,
        n,
    ));
    let g = sounds_pos(d, p);
    assert(i16_at(d2, g) == i16_at(d, g));
    assert(i16_at(d2, g + 2) == i16_at(d, g + 2));
    assert(i8_at(d2, g + 4) == i8_at(d, g + 4));
    assert(i16_at(d2, id2_pos(d, p)) == i16_at(d, id2_pos(d, p)));
    if !ends_after_common(t) {
        let m = motion_pos(d, p, t);
        lemma_fixed_blocks_framing(d, m, e);
        let q = commandable_pos(d, p, t);
        if spec_has_commandable_params(t) {
            lemma_commandable_framing(u.commandable_params->Some_0, d, q, e);
        }
        let b = battle_pos(d, p, t);
        if spec_has_battle_params(t) {
            lemma_battle_framing(u.battle_params->Some_0, d, b, e);
        }
        lemma_fixed_blocks_framing(d, projectile_pos(d, p, t), e);
        let r = trainable_pos(d, p, t);
        if spec_has_trainable_params(t) {
            lemma_trainable_framing(u.trainable_params->Some_0, d, r, e);
        }
        lemma_fixed_blocks_framing(d, building_pos(d, p, t), e);
    }
}

} // verus!
