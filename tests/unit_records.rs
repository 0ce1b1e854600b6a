use dat::{
    read_unit, BattleParams, ByteStream, FormatError, Unit, UnitType,
};

/// Little-endian byte writer for building records field by field.
struct W(Vec<u8>);

impl W {
    fn new() -> W {
        W(Vec::new())
    }
    fn u8(&mut self, v: u8) -> &mut W {
        self.0.push(v);
        self
    }
    fn i8(&mut self, v: i8) -> &mut W {
        self.0.push(v as u8);
        self
    }
    fn u16(&mut self, v: u16) -> &mut W {
        self.0.extend_from_slice(&v.to_le_bytes());
        self
    }
    fn i16(&mut self, v: i16) -> &mut W {
        self.0.extend_from_slice(&v.to_le_bytes());
        self
    }
    fn i32(&mut self, v: i32) -> &mut W {
        self.0.extend_from_slice(&v.to_le_bytes());
        self
    }
    fn f32(&mut self, v: f32) -> &mut W {
        self.0.extend_from_slice(&v.to_le_bytes());
        self
    }
    fn bytes(&mut self, b: &[u8]) -> &mut W {
        self.0.extend_from_slice(b);
        self
    }
}

/// The common block of a record of category `tag`, with the given name and
/// damage graphic count.
fn common_block(tag: u8, name: &[u8], damage_graphics: u8) -> Vec<u8> {
    let mut w = W::new();
    w.u8(tag).u16(name.len() as u16);
    w.i16(101).i16(5001).i16(6001).i16(70).i16(11).i16(12).i16(13);
    w.i8(-2).i16(-300).f32(4.5).i8(3);
    w.f32(0.25).f32(0.5).f32(2.0);
    w.i16(14).i16(15).i8(1).i8(2).i16(16);
    w.u8(1).u16(0xBEEF).u8(0);
    w.i16(17).i16(18).i16(19).i16(20);
    w.f32(1.5).f32(2.5).i8(4).u8(7).i16(21).i8(5).i16(22).f32(3.5);
    w.i8(6).i8(7).i8(8).i8(9).i8(10).f32(99.0).u8(200);
    w.i32(-70000).i32(80000).i32(0x1234_5678);
    w.u8(0).u8(1).i8(11).i8(12);
    w.i8(13).u8(250).f32(1.0).f32(2.0).f32(3.0);
    for k in 0..3 {
        w.i16(k).f32(10.0 * k as f32).u8(k as u8);
    }
    w.u8(damage_graphics);
    for k in 0..damage_graphics {
        w.i16(300 + k as i16).u8(25 * k).u8(1).u8(2);
    }
    w.i16(23).i16(24).i8(14).u8(0xAA);
    w.bytes(name);
    w.i16(-5);
    w.0
}

fn motion_block(w: &mut W) {
    w.f32(1.25).i16(31).i16(32).f32(0.75).u8(0xFF).i16(33).u8(1).f32(0.5).u8(0xFF);
}

fn command_block(w: &mut W, id: i16) {
    w.u16(1).i16(id).u8(0xFF).i16(2).i16(3).i16(4).i16(5).i16(6).i16(7).i16(8).i16(9);
    w.f32(1.0).f32(2.0).f32(3.0).u8(0xFF).f32(9.0).i8(-1).u8(0xFF).i16(10).i16(0x7777);
    w.i8(2).i8(3).u8(0xFF).i16(11).i16(12).i16(13).i16(14).i16(15).i16(16);
}

fn commandable_block(w: &mut W, commands: &[i16]) {
    w.i16(41).f32(6.0).f32(0.5).i16(42).i16(43).i8(4).i16(44).i16(45).i8(1);
    w.u16(commands.len() as u16);
    for id in commands {
        command_block(w, *id);
    }
}

fn battle_block(w: &mut W, attacks: &[(i16, i16)], armors: &[(i16, i16)]) {
    w.u8(3).u16(attacks.len() as u16);
    for (c, a) in attacks {
        w.i16(*c).i16(*a);
    }
    w.u16(armors.len() as u16);
    for (c, a) in armors {
        w.i16(*c).i16(*a);
    }
    w.i16(51).f32(7.0).f32(0.5).f32(2.0).i16(52).i16(90).i8(1).i16(53);
    w.f32(0.1).f32(0.2).f32(0.3).i8(2).f32(1.0).i16(54).i16(55).i16(56).f32(7.0).f32(2.0);
}

fn projectile_block(w: &mut W) {
    w.i8(1).i8(0).i8(1).i8(1).u8(0xFF).f32(0.25);
}

fn trainable_block(w: &mut W) {
    w.i16(0).i16(50).i16(1);
    w.i16(1).i16(20).i16(1);
    w.i16(3).i16(0).i16(0);
    w.i16(30).i16(109).i8(5).i16(2);
}

fn building_block(w: &mut W) {
    w.i16(61).i8(0).i16(62).u8(1).i16(63).i16(64).i16(65).i16(66).i16(67);
}

fn decode(bytes: Vec<u8>) -> (Result<Unit, FormatError>, usize) {
    let mut s = ByteStream::new(bytes);
    let r = read_unit(&mut s);
    (r, s.position())
}

fn has_no_blocks(u: &Unit) -> bool {
    u.motion_params.is_none()
        && u.commandable_params.is_none()
        && u.battle_params.is_none()
        && u.projectile_params.is_none()
        && u.trainable_params.is_none()
        && u.building_params.is_none()
}

#[test]
fn classify_all_bytes() {
    let table = [
        (10u8, UnitType::GraphicEffect),
        (20, UnitType::Flag),
        (25, UnitType::Unknown25),
        (30, UnitType::Moveable),
        (40, UnitType::Commandable),
        (50, UnitType::BattleReady),
        (60, UnitType::Projectile),
        (70, UnitType::Trainable),
        (80, UnitType::Building),
        (90, UnitType::Tree),
    ];
    for b in 0..=255u8 {
        match table.iter().find(|(c, _)| *c == b) {
            Some((_, t)) => assert_eq!(UnitType::from_u8(b), Ok(*t)),
            None => assert_eq!(UnitType::from_u8(b), Err(FormatError::InvalidCategoryTag(b))),
        }
    }
}

#[test]
fn capability_table() {
    let rows = [
        (UnitType::GraphicEffect, [false, false, false, false, false, false]),
        (UnitType::Flag, [false, false, false, false, false, false]),
        (UnitType::Unknown25, [false, false, false, false, false, false]),
        (UnitType::Moveable, [true, false, false, false, false, false]),
        (UnitType::Commandable, [true, true, false, false, false, false]),
        (UnitType::BattleReady, [true, true, true, false, false, false]),
        (UnitType::Projectile, [true, true, true, true, false, false]),
        (UnitType::Trainable, [true, true, true, false, true, false]),
        (UnitType::Building, [true, true, true, false, true, true]),
        (UnitType::Tree, [true, true, true, false, true, false]),
    ];
    for (t, caps) in rows.iter() {
        let got = [
            t.has_motion_params(),
            t.has_commandable_params(),
            t.has_battle_params(),
            t.has_projectile_params(),
            t.has_trainable_params(),
            t.has_building_params(),
        ];
        assert_eq!(&got, caps, "{:?}", t);
    }
}

#[test]
fn default_category() {
    assert_eq!(UnitType::default(), UnitType::Unknown25);
}

#[test]
fn common_block_fields() {
    let bytes = common_block(90, b"Oak", 2);
    let len = bytes.len();
    let (r, pos) = decode(bytes);
    let u = r.unwrap();
    assert_eq!(pos, len);
    assert_eq!(u.unit_type, UnitType::Tree);
    let a = u.attributes;
    assert_eq!(a.id, 101);
    assert_eq!(a.language_dll_name, 5001);
    assert_eq!(a.language_dll_creation, 6001);
    assert_eq!(a.class, 70);
    assert_eq!(a.standing_graphic, 11);
    assert_eq!(a.dying_graphics, (12, 13));
    assert_eq!(a.death_mode, -2);
    assert_eq!(a.hit_points, -300);
    assert_eq!(f32::from_bits(a.line_of_sight), 4.5);
    assert_eq!(a.garrison_capability, 3);
    assert_eq!(f32::from_bits(a.collision_size_x), 0.25);
    assert_eq!(f32::from_bits(a.collision_size_y), 0.5);
    assert_eq!(f32::from_bits(a.collision_size_z), 2.0);
    assert_eq!(a.train_sound, 14);
    assert_eq!(a.dead_unit_id, 15);
    assert_eq!(a.placement_mode, 1);
    assert_eq!(a.air_mode, 2);
    assert_eq!(a.icon_id, 16);
    assert!(a.hide_in_editor);
    assert!(!a.enabled);
    assert_eq!(a.placement_side_terrain, (17, 18));
    assert_eq!(a.placement_terrain, (19, 20));
    assert_eq!(f32::from_bits(a.clearance_size_x), 1.5);
    assert_eq!(f32::from_bits(a.clearance_size_y), 2.5);
    assert_eq!(a.hill_mode, 4);
    assert!(a.visible_in_fog);
    assert_eq!(a.terrain_restriction, 21);
    assert_eq!(a.fly_mode, 5);
    assert_eq!(a.resource_capacity, 22);
    assert_eq!(f32::from_bits(a.resource_decay), 3.5);
    assert_eq!(a.blast_defense_level, 6);
    assert_eq!(a.sub_type, 7);
    assert_eq!(a.interaction_mode, 8);
    assert_eq!(a.minimap_mode, 9);
    assert_eq!(a.command_attribute, 10);
    assert_eq!(a.minimap_color, 200);
    assert_eq!(a.language_dll_help, -70000);
    assert_eq!(a.language_dll_hotkey_text, 80000);
    assert_eq!(a.hotkey, 0x1234_5678);
    assert!(!a.unselectable);
    assert!(a.enable_auto_gather);
    assert_eq!(a.auto_gather_mode, 11);
    assert_eq!(a.auto_gather_id, 12);
    assert_eq!(a.selection_effect, 13);
    assert_eq!(a.editor_selection_color, 250);
    assert_eq!(f32::from_bits(a.selection_shape_size_x), 1.0);
    assert_eq!(f32::from_bits(a.selection_shape_size_y), 2.0);
    assert_eq!(f32::from_bits(a.selection_shape_size_z), 3.0);
    assert_eq!(u.resource_storage.len(), 3);
    assert_eq!(u.resource_storage[2].type_id, 2);
    assert_eq!(f32::from_bits(u.resource_storage[2].amount), 20.0);
    assert!(u.resource_storage[1].enabled);
    assert!(!u.resource_storage[0].enabled);
    assert_eq!(u.damage_graphics.len(), 2);
    assert_eq!(u.damage_graphics[1].graphic_id, 301);
    assert_eq!(u.damage_graphics[1].damage_percent, 25);
    assert_eq!(u.damage_graphics[1].old_apply_mode, 1);
    assert_eq!(u.damage_graphics[1].apply_mode, 2);
    assert_eq!(u.selection_sound, 23);
    assert_eq!(u.dying_sound, 24);
    assert_eq!(u.attack_mode, 14);
    assert_eq!(u.name, "Oak");
    assert_eq!(u.id2, -5);
}

#[test]
fn tree_stops_after_common_block() {
    let mut bytes = common_block(90, b"Tree", 0);
    let len = bytes.len();
    bytes.extend_from_slice(&[1, 2, 3, 4, 5, 6, 7, 8, 9, 10, 11, 12, 13, 14, 15, 16, 17, 18, 19, 20, 21, 22, 23]);
    let (r, pos) = decode(bytes);
    let u = r.unwrap();
    assert_eq!(pos, len);
    assert!(has_no_blocks(&u));
}

#[test]
fn graphic_effect_stops_after_common_block() {
    let bytes = common_block(10, b"", 1);
    let len = bytes.len();
    let (r, pos) = decode(bytes);
    let u = r.unwrap();
    assert_eq!(u.unit_type, UnitType::GraphicEffect);
    assert_eq!(pos, len);
    assert!(has_no_blocks(&u));
    assert_eq!(u.name, "");
}

#[test]
fn flag_skips_one_word() {
    for tag in [20u8, 25] {
        let mut bytes = common_block(tag, b"Flag", 0);
        let len = bytes.len();
        bytes.extend_from_slice(&[9, 9, 9, 9, 7, 7]);
        let (r, pos) = decode(bytes);
        let u = r.unwrap();
        assert_eq!(pos, len + 4);
        assert!(has_no_blocks(&u));
    }
}

#[test]
fn flag_without_its_word_is_truncated() {
    let mut bytes = common_block(20, b"Flag", 0);
    bytes.extend_from_slice(&[9, 9, 9]);
    let (r, _) = decode(bytes);
    assert_eq!(r, Err(FormatError::UnexpectedEndOfStream));
}

#[test]
fn moveable_has_motion_only() {
    let mut w = W(common_block(30, b"Bird", 0));
    motion_block(&mut w);
    let len = w.0.len();
    let (r, pos) = decode(w.0);
    let u = r.unwrap();
    assert_eq!(pos, len);
    let m = u.motion_params.unwrap();
    assert_eq!(f32::from_bits(m.speed), 1.25);
    assert_eq!(m.walking_graphics, (31, 32));
    assert_eq!(f32::from_bits(m.rotation_speed), 0.75);
    assert_eq!(m.tracking_unit, 33);
    assert!(m.tracking_unit_used);
    assert_eq!(f32::from_bits(m.tracking_unit_density), 0.5);
    assert!(u.commandable_params.is_none());
    assert!(u.battle_params.is_none());
}

#[test]
fn commandable_with_no_commands() {
    let mut w = W(common_block(40, b"Villager", 0));
    motion_block(&mut w);
    commandable_block(&mut w, &[]);
    let len = w.0.len();
    let (r, pos) = decode(w.0);
    let u = r.unwrap();
    assert_eq!(pos, len);
    let c = u.commandable_params.unwrap();
    assert!(c.commands.is_empty());
    assert_eq!(c.action_when_discovered_id, 41);
    assert_eq!(f32::from_bits(c.search_radius), 6.0);
    assert_eq!(f32::from_bits(c.work_rate), 0.5);
    assert_eq!(c.drop_sites, (42, 43));
    assert_eq!(c.task_swap_id, 4);
    assert_eq!(c.attack_sound, 44);
    assert_eq!(c.move_sound, 45);
    assert_eq!(c.animal_mode, 1);
    assert!(u.battle_params.is_none());
}

#[test]
fn commandable_commands_in_order() {
    let mut w = W(common_block(40, b"Villager", 0));
    motion_block(&mut w);
    commandable_block(&mut w, &[7, 8, 9]);
    let len = w.0.len();
    let (r, pos) = decode(w.0);
    assert_eq!(pos, len);
    let c = r.unwrap().commandable_params.unwrap();
    let ids: Vec<i16> = c.commands.iter().map(|k| k.id).collect();
    assert_eq!(ids, vec![7, 8, 9]);
    let k = c.commands[0];
    assert!(k.enabled);
    assert_eq!(k.type_id, 2);
    assert_eq!(k.class_id, 3);
    assert_eq!(k.unit_id, 4);
    assert_eq!(k.terrain_id, 5);
    assert_eq!(k.resource_in, 6);
    assert_eq!(k.resource_productivity_multiplier, 7);
    assert_eq!(k.resource_out, 8);
    assert_eq!(k.resource, 9);
    assert_eq!(f32::from_bits(k.quantity), 1.0);
    assert_eq!(f32::from_bits(k.execution_radius), 2.0);
    assert_eq!(f32::from_bits(k.extra_range), 3.0);
    assert_eq!(k.selection_enabler, -1);
    assert_eq!(k.plunder_source, 10);
    assert_eq!(k.selection_mode, 2);
    assert_eq!(k.right_click_mode, 3);
    assert_eq!(k.tool_graphic_id, 11);
    assert_eq!(k.proceeding_graphic_id, 12);
    assert_eq!(k.action_graphic_id, 13);
    assert_eq!(k.carrying_graphic_id, 14);
    assert_eq!(k.execution_sound_id, 15);
    assert_eq!(k.resource_deposit_sound_id, 16);
}

#[test]
fn truncated_commands_fail() {
    let mut w = W(common_block(40, b"Villager", 0));
    motion_block(&mut w);
    commandable_block(&mut w, &[7, 8]);
    w.0.truncate(w.0.len() - 1);
    let (r, _) = decode(w.0);
    assert_eq!(r, Err(FormatError::UnexpectedEndOfStream));
}

#[test]
fn battle_with_empty_and_filled_lists() {
    let mut w = W(common_block(50, b"Soldier", 0));
    motion_block(&mut w);
    commandable_block(&mut w, &[]);
    battle_block(&mut w, &[], &[(4, 1), (3, 2)]);
    let len = w.0.len();
    let (r, pos) = decode(w.0);
    assert_eq!(pos, len);
    let u = r.unwrap();
    let b: BattleParams = u.battle_params.unwrap();
    assert_eq!(b.default_armor, 3);
    assert!(b.attacks.is_empty());
    assert_eq!(b.armors, vec![(4, 1), (3, 2)]);
    assert_eq!(b.terrain_restriction_for_damage_multiplier, 51);
    assert_eq!(f32::from_bits(b.max_range), 7.0);
    assert_eq!(f32::from_bits(b.blast_width), 0.5);
    assert_eq!(f32::from_bits(b.reload_time), 2.0);
    assert_eq!(b.projectile_unit_id, 52);
    assert_eq!(b.accuracy_percent, 90);
    assert_eq!(b.tower_mode, 1);
    assert_eq!(b.frame_delay, 53);
    assert_eq!(f32::from_bits(b.graphic_displacements.2), 0.3);
    assert_eq!(b.blast_attack_level, 2);
    assert_eq!(f32::from_bits(b.min_range), 1.0);
    assert_eq!(b.attack_graphic, 54);
    assert_eq!(b.displayed_melee_armour, 55);
    assert_eq!(b.displayed_attack, 56);
    assert_eq!(f32::from_bits(b.displayed_range), 7.0);
    assert_eq!(f32::from_bits(b.displayed_reload_time), 2.0);
    assert!(u.projectile_params.is_none());
    assert!(u.trainable_params.is_none());
}

#[test]
fn truncated_attacks_fail() {
    let mut w = W(common_block(50, b"Soldier", 0));
    motion_block(&mut w);
    commandable_block(&mut w, &[]);
    w.u8(3).u16(2).i16(4).i16(1).i16(3);
    let (r, _) = decode(w.0);
    assert_eq!(r, Err(FormatError::UnexpectedEndOfStream));
}

#[test]
fn projectile_record() {
    let mut w = W(common_block(60, b"Arrow", 0));
    motion_block(&mut w);
    commandable_block(&mut w, &[]);
    battle_block(&mut w, &[(3, 4)], &[]);
    projectile_block(&mut w);
    let len = w.0.len();
    let (r, pos) = decode(w.0);
    assert_eq!(pos, len);
    let u = r.unwrap();
    assert_eq!(u.battle_params.as_ref().unwrap().attacks, vec![(3, 4)]);
    let p = u.projectile_params.unwrap();
    assert_eq!(p.stretch_mode, 1);
    assert_eq!(p.smart_mode, 0);
    assert_eq!(p.drop_animation_mode, 1);
    assert_eq!(p.penetration_mode, 1);
    assert_eq!(f32::from_bits(p.projectile_arc), 0.25);
    assert!(u.trainable_params.is_none());
    assert!(u.building_params.is_none());
}

#[test]
fn trainable_reads_three_costs_and_stops() {
    let mut w = W(common_block(70, b"Archer", 0));
    motion_block(&mut w);
    commandable_block(&mut w, &[]);
    battle_block(&mut w, &[], &[]);
    trainable_block(&mut w);
    let len = w.0.len();
    w.bytes(&[0x11, 0x22, 0x33, 0x44]);
    let (r, pos) = decode(w.0);
    assert_eq!(pos, len);
    let u = r.unwrap();
    assert_eq!(u.name, "Archer");
    let t = u.trainable_params.unwrap();
    assert_eq!(t.resource_costs.len(), 3);
    assert_eq!((t.resource_costs[0].type_id, t.resource_costs[0].amount), (0, 50));
    assert!(t.resource_costs[1].enabled);
    assert!(!t.resource_costs[2].enabled);
    assert_eq!(t.train_time, 30);
    assert_eq!(t.train_location_id, 109);
    assert_eq!(t.button_id, 5);
    assert_eq!(t.displayed_pierce_armor, 2);
    assert!(u.building_params.is_none());
    assert!(u.projectile_params.is_none());
}

#[test]
fn building_has_every_block_but_projectile() {
    let mut w = W(common_block(80, b"Barracks", 1));
    motion_block(&mut w);
    commandable_block(&mut w, &[1]);
    battle_block(&mut w, &[(1, 2)], &[(3, 4)]);
    trainable_block(&mut w);
    building_block(&mut w);
    let len = w.0.len();
    let (r, pos) = decode(w.0);
    assert_eq!(pos, len);
    let u = r.unwrap();
    assert!(u.motion_params.is_some());
    assert_eq!(u.commandable_params.as_ref().unwrap().commands.len(), 1);
    assert!(u.battle_params.is_some());
    assert!(u.projectile_params.is_none());
    assert!(u.trainable_params.is_some());
    let b = u.building_params.unwrap();
    assert_eq!(b.construction_graphic_id, 61);
    assert_eq!(b.adjacent_mode, 0);
    assert_eq!(b.graphics_angle, 62);
    assert!(b.disappears_when_built);
    assert_eq!(b.stack_unit_id, 63);
    assert_eq!(b.foundation_terrain_id, 64);
    assert_eq!(b.old_terrain_id, 65);
    assert_eq!(b.research_id, 66);
    assert_eq!(b.construction_sound, 67);
}

#[test]
fn invalid_tag_is_rejected() {
    let bytes = common_block(35, b"X", 0);
    let (r, _) = decode(bytes);
    assert_eq!(r, Err(FormatError::InvalidCategoryTag(35)));
}

#[test]
fn empty_stream_is_truncated() {
    let (r, _) = decode(Vec::new());
    assert_eq!(r, Err(FormatError::UnexpectedEndOfStream));
}

#[test]
fn truncated_common_block() {
    let mut bytes = common_block(90, b"Oak", 0);
    bytes.truncate(bytes.len() - 1);
    let (r, _) = decode(bytes);
    assert_eq!(r, Err(FormatError::UnexpectedEndOfStream));
}

#[test]
fn invalid_name_encoding() {
    let bytes = common_block(90, &[0x41, 0xFF, 0xFE], 0);
    let (r, _) = decode(bytes);
    assert_eq!(r, Err(FormatError::InvalidStringEncoding));
}

#[test]
fn name_is_decoded_as_utf8() {
    let bytes = common_block(90, "Bär".as_bytes(), 0);
    let (r, _) = decode(bytes);
    assert_eq!(r.unwrap().name, "Bär");
}

#[test]
fn records_read_back_to_back() {
    let mut bytes = common_block(90, b"One", 0);
    let first = bytes.len();
    bytes.extend(common_block(10, b"Two", 0));
    let mut s = ByteStream::new(bytes);
    let a = read_unit(&mut s).unwrap();
    assert_eq!(s.position(), first);
    let b = read_unit(&mut s).unwrap();
    assert_eq!(a.name, "One");
    assert_eq!(b.name, "Two");
    assert_eq!(b.unit_type, UnitType::GraphicEffect);
}
