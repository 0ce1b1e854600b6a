use vstd::prelude::*;
use crate::error::FormatError;
use crate::stream::{
    flag16_at, flag_at, get_flag, get_flag16, get_i16, get_i8, get_u16, get_u32, get_u8, i16_at, i8_at,
    le16, read_u16, read_u8, reads_fixed, u16_at, u32_at, ByteStream, F32Bits,
};

verus! {

pub const RESOURCE_STORAGE_LEN: usize = 7;
pub const DAMAGE_GRAPHIC_LEN: usize = 5;
pub const UNIT_COMMAND_LEN: usize = 59;
pub const MOTION_LEN: usize = 21;
pub const PROJECTILE_LEN: usize = 9;
pub const TRAINABLE_LEN: usize = 25;
pub const BUILDING_LEN: usize = 16;
/// Bytes of the commandable block before its commands, the count included.
pub const COMMANDABLE_HEAD_LEN: usize = 22;
/// Bytes of one attack or armor entry.
pub const CLASS_AMOUNT_LEN: usize = 4;
/// Bytes of the battle block after its armor entries.
pub const BATTLE_TAIL_LEN: usize = 52;

/// A resource a unit holds.
#[derive(Debug, Clone, Copy, PartialEq, Eq)]
pub struct ResourceStorage {
    pub type_id: i16,
    pub amount: F32Bits,
    pub enabled: bool,
}

pub open spec fn resource_storage_at(d: Seq<u8>, p: int) -> ResourceStorage {
    ResourceStorage { type_id: i16_at(d, p), amount: u32_at(d, p + 2), enabled: flag_at(d, p + 6) }
}

/// A resource it costs to train a unit.
#[derive(Debug, Clone, Copy, PartialEq, Eq)]
pub struct ResourceCost {
    pub type_id: i16,
    pub amount: i16,
    pub enabled: bool,
}

pub open spec fn resource_cost_at(d: Seq<u8>, p: int) -> ResourceCost {
    ResourceCost { type_id: i16_at(d, p), amount: i16_at(d, p + 2), enabled: flag16_at(d, p + 4) }
}

/// A graphic shown once a unit has taken a given share of damage.
#[derive(Debug, Clone, Copy, PartialEq, Eq)]
pub struct DamageGraphic {
    pub graphic_id: i16,
    pub damage_percent: u8,
    pub old_apply_mode: u8,
    pub apply_mode: u8,
}

pub open spec fn damage_graphic_at(d: Seq<u8>, p: int) -> DamageGraphic {
    DamageGraphic {
        graphic_id: i16_at(d, p),
        damage_percent: d[p + 2],
        old_apply_mode: d[p + 3],
        apply_mode: d[p + 4],
    }
}

/// One task a commandable unit can carry out.
#[derive(Debug, Clone, Copy, PartialEq, Eq)]
pub struct UnitCommand {
    pub id: i16,
    pub enabled: bool,
    pub type_id: i16,
    pub class_id: i16,
    pub unit_id: i16,
    pub terrain_id: i16,
    pub resource_in: i16,
    pub resource_productivity_multiplier: i16,
    pub resource_out: i16,
    pub resource: i16,
    pub quantity: F32Bits,
    pub execution_radius: F32Bits,
    pub extra_range: F32Bits,
    pub selection_enabler: i8,
    pub plunder_source: i16,
    pub selection_mode: i8,
    pub right_click_mode: i8,
    pub tool_graphic_id: i16,
    pub proceeding_graphic_id: i16,
    pub action_graphic_id: i16,
    pub carrying_graphic_id: i16,
    pub execution_sound_id: i16,
    pub resource_deposit_sound_id: i16,
}

/// The command at `p`; the bytes at offsets 4, 33 to 37, 39, 42 and 43, and
/// 46 are unused.
pub open spec fn unit_command_at(d: Seq<u8>, p: int) -> UnitCommand {
    UnitCommand {
        enabled: flag16_at(d, p),
        id: i16_at(d, p + 2),
        type_id: i16_at(d, p + 5),
        class_id: i16_at(d, p + 7),
        unit_id: i16_at(d, p + 9),
        terrain_id: i16_at(d, p + 11),
        resource_in: i16_at(d, p + 13),
        resource_productivity_multiplier: i16_at(d, p + 15),
        resource_out: i16_at(d, p + 17),
        resource: i16_at(d, p + 19),
        quantity: u32_at(d, p + 21),
        execution_radius: u32_at(d, p + 25),
        extra_range: u32_at(d, p + 29),
        selection_enabler: i8_at(d, p + 38),
        plunder_source: i16_at(d, p + 40),
        selection_mode: i8_at(d, p + 44),
        right_click_mode: i8_at(d, p + 45),
        tool_graphic_id: i16_at(d, p + 47),
        proceeding_graphic_id: i16_at(d, p + 49),
        action_graphic_id: i16_at(d, p + 51),
        carrying_graphic_id: i16_at(d, p + 53),
        execution_sound_id: i16_at(d, p + 55),
        resource_deposit_sound_id: i16_at(d, p + 57),
    }
}

/// How a unit moves.
#[derive(Debug, Clone, Copy, PartialEq, Eq)]
pub struct MotionParams {
    pub speed: F32Bits,
    pub walking_graphics: (i16, i16),
    pub rotation_speed: F32Bits,
    pub tracking_unit: i16,
    pub tracking_unit_used: bool,
    pub tracking_unit_density: F32Bits,
}

/// The motion block at `p`; the bytes at offsets 12 and 20 are unused.
pub open spec fn motion_params_at(d: Seq<u8>, p: int) -> MotionParams {
    MotionParams {
        speed: u32_at(d, p),
        walking_graphics: (i16_at(d, p + 4), i16_at(d, p + 6)),
        rotation_speed: u32_at(d, p + 8),
        tracking_unit: i16_at(d, p + 13),
        tracking_unit_used: flag_at(d, p + 15),
        tracking_unit_density: u32_at(d, p + 16),
    }
}

/// How a projectile flies.
#[derive(Debug, Clone, Copy, PartialEq, Eq)]
pub struct ProjectileParams {
    pub stretch_mode: i8,
    pub smart_mode: i8,
    pub drop_animation_mode: i8,
    pub penetration_mode: i8,
    pub projectile_arc: F32Bits,
}

/// The projectile block at `p`; the byte at offset 4 is unused.
pub open spec fn projectile_params_at(d: Seq<u8>, p: int) -> ProjectileParams {
    ProjectileParams {
        stretch_mode: i8_at(d, p),
        smart_mode: i8_at(d, p + 1),
        drop_animation_mode: i8_at(d, p + 2),
        penetration_mode: i8_at(d, p + 3),
        projectile_arc: u32_at(d, p + 5),
    }
}

/// How a building is put up.
#[derive(Debug, Clone, Copy, PartialEq, Eq)]
pub struct BuildingParams {
    pub construction_graphic_id: i16,
    pub adjacent_mode: i8,
    pub graphics_angle: i16,
    pub disappears_when_built: bool,
    pub stack_unit_id: i16,
    pub foundation_terrain_id: i16,
    pub old_terrain_id: i16,
    pub research_id: i16,
    pub construction_sound: i16,
}

pub open spec fn building_params_at(d: Seq<u8>, p: int) -> BuildingParams {
    BuildingParams {
        construction_graphic_id: i16_at(d, p),
        adjacent_mode: i8_at(d, p + 2),
        graphics_angle: i16_at(d, p + 3),
        disappears_when_built: flag_at(d, p + 5),
        stack_unit_id: i16_at(d, p + 6),
        foundation_terrain_id: i16_at(d, p + 8),
        old_terrain_id: i16_at(d, p + 10),
        research_id: i16_at(d, p + 12),
        construction_sound: i16_at(d, p + 14),
    }
}

/// What training a unit takes.
#[derive(Debug, PartialEq, Eq)]
pub struct TrainableParams {
    pub resource_costs: Vec<ResourceCost>,
    pub train_time: i16,
    pub train_location_id: i16,
    pub button_id: i8,
    pub displayed_pierce_armor: i16,
}

/// Whether `t` is the trainable block at `p`: three resource costs of six
/// bytes each, with no count before them, then the fixed fields.
pub open spec fn is_trainable_params_at(t: TrainableParams, d: Seq<u8>, p: int) -> bool {
    &&& t.resource_costs@ == seq![
        resource_cost_at(d, p),
        resource_cost_at(d, p + 6),
        resource_cost_at(d, p + 12),
    ]
    &&& t.train_time == i16_at(d, p + 18)
    &&& t.train_location_id == i16_at(d, p + 20)
    &&& t.button_id == i8_at(d, p + 22)
    &&& t.displayed_pierce_armor == i16_at(d, p + 23)
}

/// Reads one resource storage: type, amount, and a one-byte enabled flag.
pub fn read_resource_storage(stream: &mut ByteStream) -> (r: Result<ResourceStorage, FormatError>)
    ensures
        reads_fixed(*old(stream), *final(stream), r, RESOURCE_STORAGE_LEN as int,
            resource_storage_at(old(stream).data@, old(stream).pos as int)),
{
    if !stream.can_read(RESOURCE_STORAGE_LEN) {
        return Err(FormatError::UnexpectedEndOfStream);
    }
    let d = stream.data.as_slice();
    let p = stream.pos;
    let v = ResourceStorage {
        type_id: get_i16(d, p),
        amount: get_u32(d, p + 2),
        enabled: get_flag(d, p + 6),
    };
    stream.pos = p + RESOURCE_STORAGE_LEN;
    Ok(v)
}

/// Reads one damage graphic: graphic, damage percent and two apply modes.
pub fn read_damage_graphic(stream: &mut ByteStream) -> (r: Result<DamageGraphic, FormatError>)
    ensures
        reads_fixed(*old(stream), *final(stream), r, DAMAGE_GRAPHIC_LEN as int,
            damage_graphic_at(old(stream).data@, old(stream).pos as int)),
{
    if !stream.can_read(DAMAGE_GRAPHIC_LEN) {
        return Err(FormatError::UnexpectedEndOfStream);
    }
    let d = stream.data.as_slice();
    let p = stream.pos;
    let v = DamageGraphic {
        graphic_id: get_i16(d, p),
        damage_percent: get_u8(d, p + 2),
        old_apply_mode: get_u8(d, p + 3),
        apply_mode: get_u8(d, p + 4),
    };
    stream.pos = p + DAMAGE_GRAPHIC_LEN;
    Ok(v)
}

/// Reads one command; its enabled flag is a two-byte value, nonzero for true.
pub fn read_unit_command(stream: &mut ByteStream) -> (r: Result<UnitCommand, FormatError>)
    ensures
        reads_fixed(*old(stream), *final(stream), r, UNIT_COMMAND_LEN as int,
            unit_command_at(old(stream).data@, old(stream).pos as int)),
{
    if !stream.can_read(UNIT_COMMAND_LEN) {
        return Err(FormatError::UnexpectedEndOfStream);
    }
    let d = stream.data.as_slice();
    let p = stream.pos;
    let v = UnitCommand {
        enabled: get_flag16(d, p),
        id: get_i16(d, p + 2),
        type_id: get_i16(d, p + 5),
        class_id: get_i16(d, p + 7),
        unit_id: get_i16(d, p + 9),
        terrain_id: get_i16(d, p + 11),
        resource_in: get_i16(d, p + 13),
        resource_productivity_multiplier: get_i16(d, p + 15),
        resource_out: get_i16(d, p + 17),
        resource: get_i16(d, p + 19),
        quantity: get_u32(d, p + 21),
        execution_radius: get_u32(d, p + 25),
        extra_range: get_u32(d, p + 29),
        selection_enabler: get_i8(d, p + 38),
        plunder_source: get_i16(d, p + 40),
        selection_mode: get_i8(d, p + 44),
        right_click_mode: get_i8(d, p + 45),
        tool_graphic_id: get_i16(d, p + 47),
        proceeding_graphic_id: get_i16(d, p + 49),
        action_graphic_id: get_i16(d, p + 51),
        carrying_graphic_id: get_i16(d, p + 53),
        execution_sound_id: get_i16(d, p + 55),
        resource_deposit_sound_id: get_i16(d, p + 57),
    };
    stream.pos = p + UNIT_COMMAND_LEN;
    Ok(v)
}

/// Reads the motion block.
pub fn read_motion_params(stream: &mut ByteStream) -> (r: Result<MotionParams, FormatError>)
    ensures
        reads_fixed(*old(stream), *final(stream), r, MOTION_LEN as int,
            motion_params_at(old(stream).data@, old(stream).pos as int)),
{
    if !stream.can_read(MOTION_LEN) {
        return Err(FormatError::UnexpectedEndOfStream);
    }
    let d = stream.data.as_slice();
    let p = stream.pos;
    let v = MotionParams {
        speed: get_u32(d, p),
        walking_graphics: (get_i16(d, p + 4), get_i16(d, p + 6)),
        rotation_speed: get_u32(d, p + 8),
        tracking_unit: get_i16(d, p + 13),
        tracking_unit_used: get_flag(d, p + 15),
        tracking_unit_density: get_u32(d, p + 16),
    };
    stream.pos = p + MOTION_LEN;
    Ok(v)
}

/// Reads the projectile block.
pub fn read_projectile_params(stream: &mut ByteStream) -> (r: Result<ProjectileParams, FormatError>)
    ensures
        reads_fixed(*old(stream), *final(stream), r, PROJECTILE_LEN as int,
            projectile_params_at(old(stream).data@, old(stream).pos as int)),
{
    if !stream.can_read(PROJECTILE_LEN) {
        return Err(FormatError::UnexpectedEndOfStream);
    }
    let d = stream.data.as_slice();
    let p = stream.pos;
    let v = ProjectileParams {
        stretch_mode: get_i8(d, p),
        smart_mode: get_i8(d, p + 1),
        drop_animation_mode: get_i8(d, p + 2),
        penetration_mode: get_i8(d, p + 3),
        projectile_arc: get_u32(d, p + 5),
    };
    stream.pos = p + PROJECTILE_LEN;
    Ok(v)
}

/// Reads the building block.
pub fn read_building_params(stream: &mut ByteStream) -> (r: Result<BuildingParams, FormatError>)
    ensures
        reads_fixed(*old(stream), *final(stream), r, BUILDING_LEN as int,
            building_params_at(old(stream).data@, old(stream).pos as int)),
{
    if !stream.can_read(BUILDING_LEN) {
        return Err(FormatError::UnexpectedEndOfStream);
    }
    let d = stream.data.as_slice();
    let p = stream.pos;
    let v = BuildingParams {
        construction_graphic_id: get_i16(d, p),
        adjacent_mode: get_i8(d, p + 2),
        graphics_angle: get_i16(d, p + 3),
        disappears_when_built: get_flag(d, p + 5),
        stack_unit_id: get_i16(d, p + 6),
        foundation_terrain_id: get_i16(d, p + 8),
        old_terrain_id: get_i16(d, p + 10),
        research_id: get_i16(d, p + 12),
        construction_sound: get_i16(d, p + 14),
    };
    stream.pos = p + BUILDING_LEN;
    Ok(v)
}

fn resource_cost_from(d: &[u8], p: usize) -> (r: ResourceCost)
    requires
        p + 6 <= d@.len(),
    ensures
        r == resource_cost_at(d@, p as int),
{
    let end: usize = d.len();
    assert(p + 6 <= end);
    ResourceCost { type_id: get_i16(d, p), amount: get_i16(d, p + 2), enabled: get_flag16(d, p + 4) }
}

/// Reads the trainable block, whose three resource costs have no count.
pub fn read_trainable_params(stream: &mut ByteStream) -> (r: Result<TrainableParams, FormatError>)
    ensures
        final(stream).data@ == old(stream).data@,
        match r {
            Ok(t) => old(stream).holds(TRAINABLE_LEN as int) && is_trainable_params_at(
                t,
                old(stream).data@,
                old(stream).pos as int,
            ) && final(stream).pos == old(stream).pos + TRAINABLE_LEN,
            Err(e) => !old(stream).holds(TRAINABLE_LEN as int) && e
                == FormatError::UnexpectedEndOfStream,
        },
{
    if !stream.can_read(TRAINABLE_LEN) {
        return Err(FormatError::UnexpectedEndOfStream);
    }
    let d = stream.data.as_slice();
    let p = stream.pos;
    let mut resource_costs: Vec<ResourceCost> = Vec::new();
    resource_costs.push(resource_cost_from(d, p));
    resource_costs.push(resource_cost_from(d, p + 6));
    resource_costs.push(resource_cost_from(d, p + 12));
    let v = TrainableParams {
        resource_costs,
        train_time: get_i16(d, p + 18),
        train_location_id: get_i16(d, p + 20),
        button_id: get_i8(d, p + 22),
        displayed_pierce_armor: get_i16(d, p + 23),
    };
    assert(v.resource_costs@ =~= seq![
        resource_cost_at(d@, p as int),
        resource_cost_at(d@, p + 6),
        resource_cost_at(d@, p + 12),
    ]);
    stream.pos = p + TRAINABLE_LEN;
    Ok(v)
}

/// What a commandable unit does and carries out.
#[derive(Debug, PartialEq, Eq)]
pub struct CommandableParams {
    pub action_when_discovered_id: i16,
    pub search_radius: F32Bits,
    pub work_rate: F32Bits,
    pub drop_sites: (i16, i16),
    pub task_swap_id: i8,
    pub attack_sound: i16,
    pub move_sound: i16,
    pub animal_mode: i8,
    pub commands: Vec<UnitCommand>,
}

/// `n` commands laid end to end from `p`.
pub open spec fn unit_commands_at(d: Seq<u8>, p: int, n: nat) -> Seq<UnitCommand> {
    Seq::new(n, |i: int| unit_command_at(d, p + UNIT_COMMAND_LEN * i))
}

/// The number of commands of the commandable block at `p`.
pub open spec fn command_count_at(d: Seq<u8>, p: int) -> int {
    le16(d, p + 20)
}

/// The size of the commandable block at `p`.
pub open spec fn commandable_len(d: Seq<u8>, p: int) -> int {
    COMMANDABLE_HEAD_LEN + UNIT_COMMAND_LEN * command_count_at(d, p)
}

/// Whether the bytes hold the whole commandable block at `p`, its count
/// first and then as many commands as the count says.
pub open spec fn commandable_fits(d: Seq<u8>, p: int) -> bool {
    p + COMMANDABLE_HEAD_LEN <= d.len() && p + commandable_len(d, p) <= d.len()
}

/// Whether `c` is the commandable block at `p`.
pub open spec fn is_commandable_params_at(c: CommandableParams, d: Seq<u8>, p: int) -> bool {
    &&& c.action_when_discovered_id == i16_at(d, p)
    &&& c.search_radius == u32_at(d, p + 2)
    &&& c.work_rate == u32_at(d, p + 6)
    &&& c.drop_sites == (i16_at(d, p + 10), i16_at(d, p + 12))
    &&& c.task_swap_id == i8_at(d, p + 14)
    &&& c.attack_sound == i16_at(d, p + 15)
    &&& c.move_sound == i16_at(d, p + 17)
    &&& c.animal_mode == i8_at(d, p + 19)
    &&& c.commands@ == unit_commands_at(d, p + COMMANDABLE_HEAD_LEN, command_count_at(d, p) as nat)
}

/// How a unit fights.
#[derive(Debug, PartialEq, Eq)]
pub struct BattleParams {
    pub default_armor: u8,
    /// (class, amount) pairs.
    pub attacks: Vec<(i16, i16)>,
    /// (class, amount) pairs.
    pub armors: Vec<(i16, i16)>,
    pub terrain_restriction_for_damage_multiplier: i16,
    pub max_range: F32Bits,
    pub blast_width: F32Bits,
    pub reload_time: F32Bits,
    pub projectile_unit_id: i16,
    pub accuracy_percent: i16,
    pub tower_mode: i8,
    pub frame_delay: i16,
    pub graphic_displacements: (F32Bits, F32Bits, F32Bits),
    pub blast_attack_level: i8,
    pub min_range: F32Bits,
    pub attack_graphic: i16,
    pub displayed_melee_armour: i16,
    pub displayed_attack: i16,
    pub displayed_range: F32Bits,
    pub displayed_reload_time: F32Bits,
}

/// `n` (class, amount) pairs laid end to end from `p`.
pub open spec fn class_amounts_at(d: Seq<u8>, p: int, n: nat) -> Seq<(i16, i16)> {
    Seq::new(n, |i: int| (i16_at(d, p + CLASS_AMOUNT_LEN * i), i16_at(d, p + CLASS_AMOUNT_LEN * i + 2)))
}

pub open spec fn attack_count_at(d: Seq<u8>, p: int) -> int {
    le16(d, p + 1)
}

/// Where the armor count of the battle block at `p` stands.
pub open spec fn armor_count_pos(d: Seq<u8>, p: int) -> int {
    p + 3 + CLASS_AMOUNT_LEN * attack_count_at(d, p)
}

pub open spec fn armor_count_at(d: Seq<u8>, p: int) -> int {
    le16(d, armor_count_pos(d, p))
}

/// Where the fixed fields after the armors of the battle block at `p` start.
pub open spec fn battle_tail_pos(d: Seq<u8>, p: int) -> int {
    armor_count_pos(d, p) + 2 + CLASS_AMOUNT_LEN * armor_count_at(d, p)
}

/// The size of the battle block at `p`.
pub open spec fn battle_len(d: Seq<u8>, p: int) -> int {
    battle_tail_pos(d, p) + BATTLE_TAIL_LEN - p
}

/// Whether the bytes hold the whole battle block at `p`.
pub open spec fn battle_fits(d: Seq<u8>, p: int) -> bool {
    &&& p + 3 <= d.len()
    &&& armor_count_pos(d, p) + 2 <= d.len()
    &&& p + battle_len(d, p) <= d.len()
}

/// Whether `b` is the battle block at `p`: the default armor, the attacks
/// and the armors, each list after its own 16-bit count, then the fixed fields.
pub open spec fn is_battle_params_at(b: BattleParams, d: Seq<u8>, p: int) -> bool {
    let t = battle_tail_pos(d, p);
    &&& b.default_armor == d[p]
    &&& b.attacks@ == class_amounts_at(d, p + 3, attack_count_at(d, p) as nat)
    &&& b.armors@ == class_amounts_at(d, armor_count_pos(d, p) + 2, armor_count_at(d, p) as nat)
    &&& b.terrain_restriction_for_damage_multiplier == i16_at(d, t)
    &&& b.max_range == u32_at(d, t + 2)
    &&& b.blast_width == u32_at(d, t + 6)
    &&& b.reload_time == u32_at(d, t + 10)
    &&& b.projectile_unit_id == i16_at(d, t + 14)
    &&& b.accuracy_percent == i16_at(d, t + 16)
    &&& b.tower_mode == i8_at(d, t + 18)
    &&& b.frame_delay == i16_at(d, t + 19)
    &&& b.graphic_displacements == (u32_at(d, t + 21), u32_at(d, t + 25), u32_at(d, t + 29))
    &&& b.blast_attack_level == i8_at(d, t + 33)
    &&& b.min_range == u32_at(d, t + 34)
    &&& b.attack_graphic == i16_at(d, t + 38)
    &&& b.displayed_melee_armour == i16_at(d, t + 40)
    &&& b.displayed_attack == i16_at(d, t + 42)
    &&& b.displayed_range == u32_at(d, t + 44)
    &&& b.displayed_reload_time == u32_at(d, t + 48)
}

/// Reads the commandable block; it holds as many commands as its 16-bit
/// count says, and a short stream fails the block.
#[verifier::loop_isolation(false)]
pub fn read_commandable_params(stream: &mut ByteStream) -> (r: Result<CommandableParams, FormatError>)
    ensures
        final(stream).data@ == old(stream).data@,
        match r {
            Ok(c) => commandable_fits(old(stream).data@, old(stream).pos as int)
                && is_commandable_params_at(c, old(stream).data@, old(stream).pos as int)
                && final(stream).pos == old(stream).pos + commandable_len(
                old(stream).data@,
                old(stream).pos as int,
            ),
            Err(e) => !commandable_fits(old(stream).data@, old(stream).pos as int) && e
                == FormatError::UnexpectedEndOfStream,
        },
{
    if !stream.can_read(COMMANDABLE_HEAD_LEN) {
        return Err(FormatError::UnexpectedEndOfStream);
    }
    let ghost d0 = stream.data@;
    let d = stream.data.as_slice();
    let p = stream.pos;
    let action_when_discovered_id = get_i16(d, p);
    let search_radius = get_u32(d, p + 2);
    let work_rate = get_u32(d, p + 6);
    let drop_sites = (get_i16(d, p + 10), get_i16(d, p + 12));
    let task_swap_id = get_i8(d, p + 14);
    let attack_sound = get_i16(d, p + 15);
    let move_sound = get_i16(d, p + 17);
    let animal_mode = get_i8(d, p + 19);
    let n = get_u16(d, p + 20) as usize;
    stream.pos = p + COMMANDABLE_HEAD_LEN;
    let mut commands: Vec<UnitCommand> = Vec::new();
    let mut i: usize = 0;
    while i < n
        invariant
            stream.data@ == d0,
            p + COMMANDABLE_HEAD_LEN <= d0.len(),
            n == command_count_at(d0, p as int),
            i <= n,
            stream.pos == p + COMMANDABLE_HEAD_LEN + UNIT_COMMAND_LEN * i,
            stream.pos <= d0.len(),
            commands@ == unit_commands_at(d0, p + COMMANDABLE_HEAD_LEN, i as nat),
        decreases n - i,
    {
        match read_unit_command(stream) {
            Ok(c) => {
                commands.push(c);
            },
            Err(e) => {
                return Err(e);
            },
        }
        i = i + 1;
        assert(commands@ =~= unit_commands_at(d0, p + COMMANDABLE_HEAD_LEN, i as nat));
    }
    Ok(
        CommandableParams {
            action_when_discovered_id,
            search_radius,
            work_rate,
            drop_sites,
            task_swap_id,
            attack_sound,
            move_sound,
            animal_mode,
            commands,
        },
    )
}

/// Reads `n` (class, amount) pairs.
fn read_class_amounts(stream: &mut ByteStream, n: u16) -> (r: Result<Vec<(i16, i16)>, FormatError>)
    ensures
        final(stream).data@ == old(stream).data@,
        match r {
            Ok(v) => old(stream).holds(CLASS_AMOUNT_LEN * n) && v@ == class_amounts_at(
                old(stream).data@,
                old(stream).pos as int,
                n as nat,
            ) && final(stream).pos == old(stream).pos + CLASS_AMOUNT_LEN * n,
            Err(e) => !old(stream).holds(CLASS_AMOUNT_LEN * n) && e
                == FormatError::UnexpectedEndOfStream,
        },
{
    let count = n as usize;
    if !stream.can_read(CLASS_AMOUNT_LEN * count) {
        return Err(FormatError::UnexpectedEndOfStream);
    }
    let d = stream.data.as_slice();
    let p = stream.pos;
    let mut v: Vec<(i16, i16)> = Vec::new();
    let mut i: usize = 0;
    while i < count
        invariant
            p + CLASS_AMOUNT_LEN * count <= d@.len(),
            p + CLASS_AMOUNT_LEN * count <= usize::MAX,
            i <= count,
            v@ == class_amounts_at(d@, p as int, i as nat),
        decreases count - i,
    {
        let q = p + CLASS_AMOUNT_LEN * i;
        v.push((get_i16(d, q), get_i16(d, q + 2)));
        i = i + 1;
        assert(v@ =~= class_amounts_at(d@, p as int, i as nat));
    }
    stream.pos = p + CLASS_AMOUNT_LEN * count;
    Ok(v)
}

/// Reads the battle block; each of its two lists is as long as its 16-bit
/// count says, and a short stream fails the block.
pub fn read_battle_params(stream: &mut ByteStream) -> (r: Result<BattleParams, FormatError>)
    ensures
        final(stream).data@ == old(stream).data@,
        match r {
            Ok(b) => battle_fits(old(stream).data@, old(stream).pos as int) && is_battle_params_at(
                b,
                old(stream).data@,
                old(stream).pos as int,
            ) && final(stream).pos == old(stream).pos + battle_len(
                old(stream).data@,
                old(stream).pos as int,
            ),
            Err(e) => !battle_fits(old(stream).data@, old(stream).pos as int) && e
                == FormatError::UnexpectedEndOfStream,
        },
{
    let default_armor = match read_u8(stream) {
        Ok(v) => v,
        Err(e) => {
            return Err(e);
        },
    };
    let attack_count = match read_u16(stream) {
        Ok(v) => v,
        Err(e) => {
            return Err(e);
        },
    };
    let attacks = match read_class_amounts(stream, attack_count) {
        Ok(v) => v,
        Err(e) => {
            return Err(e);
        },
    };
    let armor_count = match read_u16(stream) {
        Ok(v) => v,
        Err(e) => {
            return Err(e);
        },
    };
    let armors = match read_class_amounts(stream, armor_count) {
        Ok(v) => v,
        Err(e) => {
            return Err(e);
        },
    };
    if !stream.can_read(BATTLE_TAIL_LEN) {
        return Err(FormatError::UnexpectedEndOfStream);
    }
    let d = stream.data.as_slice();
    let t = stream.pos;
    let b = BattleParams {
        default_armor,
        attacks,
        armors,
        terrain_restriction_for_damage_multiplier: get_i16(d, t),
        max_range: get_u32(d, t + 2),
        blast_width: get_u32(d, t + 6),
        reload_time: get_u32(d, t + 10),
        projectile_unit_id: get_i16(d, t + 14),
        accuracy_percent: get_i16(d, t + 16),
        tower_mode: get_i8(d, t + 18),
        frame_delay: get_i16(d, t + 19),
        graphic_displacements: (get_u32(d, t + 21), get_u32(d, t + 25), get_u32(d, t + 29)),
        blast_attack_level: get_i8(d, t + 33),
        min_range: get_u32(d, t + 34),
        attack_graphic: get_i16(d, t + 38),
        displayed_melee_armour: get_i16(d, t + 40),
        displayed_attack: get_i16(d, t + 42),
        displayed_range: get_u32(d, t + 44),
        displayed_reload_time: get_u32(d, t + 48),
    };
    stream.pos = t + BATTLE_TAIL_LEN;
    Ok(b)
}

/// A count of zero gives an empty list, and a count that asks for more
/// entries than the bytes hold fails the block rather than shortening it:
/// for the commands of a commandable block and for the attacks and armors of
/// a battle block.
pub proof fn lemma_list_counts(d: Seq<u8>, p: int)
    ensures
        p + COMMANDABLE_HEAD_LEN <= d.len() && command_count_at(d, p) == 0 ==> commandable_fits(
            d,
            p,
        ) && unit_commands_at(d, p + COMMANDABLE_HEAD_LEN, command_count_at(d, p) as nat).len()
            == 0,
        p + COMMANDABLE_HEAD_LEN + UNIT_COMMAND_LEN * command_count_at(d, p) > d.len()
            ==> !commandable_fits(d, p),
        class_amounts_at(d, p + 3, 0).len() == 0,
        p + 3 + CLASS_AMOUNT_LEN * attack_count_at(d, p) + 2 > d.len() ==> !battle_fits(d, p),
        armor_count_pos(d, p) + 2 + CLASS_AMOUNT_LEN * armor_count_at(d, p) > d.len()
            ==> !battle_fits(d, p),
        p + 3 <= d.len() && attack_count_at(d, p) == 0 ==> armor_count_pos(d, p) == p + 3,
{
}

/// A trainable block holds exactly three resource costs, and reads the same
/// whatever bytes follow its 25 bytes.
pub proof fn lemma_trainable_framing(t: TrainableParams, d: Seq<u8>, p: int, e: Seq<u8>)
    requires
        0 <= p,
        p + TRAINABLE_LEN <= d.len(),
        is_trainable_params_at(t, d, p),
    ensures
        t.resource_costs@.len() == 3,
        is_trainable_params_at(t, d + e, p),
{
    let d2 = d + e;
    assert forall|i: int| p <= i < p + TRAINABLE_LEN implies d2[i] == d[i] by {}
    assert(resource_cost_at(d2, p) == resource_cost_at(d, p));
    assert(resource_cost_at(d2, p + 6) == resource_cost_at(d, p + 6));
    assert(resource_cost_at(d2, p + 12) == resource_cost_at(d, p + 12));
}

/// The fixed-size blocks at `p` read the same whatever bytes follow them.
pub proof fn lemma_fixed_blocks_framing(d: Seq<u8>, p: int, e: Seq<u8>)
    requires
        0 <= p,
    ensures
        p + MOTION_LEN <= d.len() ==> motion_params_at(d + e, p) == motion_params_at(d, p),
        p + PROJECTILE_LEN <= d.len() ==> projectile_params_at(d + e, p) == projectile_params_at(
            d,
            p,
        ),
        p + BUILDING_LEN <= d.len() ==> building_params_at(d + e, p) == building_params_at(d, p),
{
}

/// A commandable block reads the same whatever bytes follow it.
pub proof fn lemma_commandable_framing(c: CommandableParams, d: Seq<u8>, p: int, e: Seq<u8>)
    requires
        0 <= p,
        commandable_fits(d, p),
        is_commandable_params_at(c, d, p),
    ensures
        is_commandable_params_at(c, d + e, p),
{
    let d2 = d + e;
    let k = command_count_at(d, p) as nat;
    assert(d2[p + 20] == d[p + 20]);
    assert(d2[p + 21] == d[p + 21]);
    assert forall|i: int| 0 <= i < k implies #[trigger] unit_command_at(
        d2,
        p + COMMANDABLE_HEAD_LEN + UNIT_COMMAND_LEN * i,
    ) == unit_command_at(d, p + COMMANDABLE_HEAD_LEN + UNIT_COMMAND_LEN * i) by {
        lemma_command_framing(d, p + COMMANDABLE_HEAD_LEN + UNIT_COMMAND_LEN * i, e);
    }
    assert(unit_commands_at(d2, p + 22, k) =~= unit_commands_at(d, p + 22, k));
    assert(is_commandable_params_at(c, d2, p));
}

/// A command reads the same whatever bytes follow it.
proof fn lemma_command_framing(d: Seq<u8>, p: int, e: Seq<u8>)
    requires
        0 <= p,
        p + UNIT_COMMAND_LEN <= d.len(),
    ensures
        unit_command_at(d + e, p) == unit_command_at(d, p),
{
}

/// A battle block reads the same whatever bytes follow it.
pub proof fn lemma_battle_framing(b: BattleParams, d: Seq<u8>, p: int, e: Seq<u8>)
    requires
        0 <= p,
        battle_fits(d, p),
        is_battle_params_at(b, d, p),
    ensures
        is_battle_params_at(b, d + e, p),
{
    let d2 = d + e;
    assert(d2[p] == d[p]);
    assert(d2[p + 1] == d[p + 1]);
    assert(d2[p + 2] == d[p + 2]);
    let a = armor_count_pos(d, p);
    assert(d2[a] == d[a]);
    assert(d2[a + 1] == d[a + 1]);
    let na = attack_count_at(d, p) as nat;
    let nr = armor_count_at(d, p) as nat;
    assert(class_amounts_at(d2, p + 3, na) =~= class_amounts_at(d, p + 3, na));
    assert(class_amounts_at(d2, a + 2, nr) =~= class_amounts_at(d, a + 2, nr));
}

} // verus!
