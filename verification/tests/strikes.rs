use wag_characters::attacks::{build_throw_effect, AttackBuilder, HitBuilder, SubBuilder};
use bevy::platform::collections::HashSet;
use wag_characters::events::{ActionEvent, FlashKind};
use wag_characters::script::ActionClock;
use wag_characters::throws::{ThrowEffectBuilder, ThrowSide, ThrowStep};
use wag_characters::requirements::ActionRequirement;
use wag_characters::hits::{expire, BlockType, HitProperty, HitTracker, Lifetime};
use wag_characters::ids::{ActionCategory, ActionId, AttackHeight, CancelType, GameButton, StatusCondition, StatusFlag, StickPosition, VoiceLine};
use wag_characters::items::Inventory;
use wag_characters::resources::{ResourceType, Stats, WAGResource};
use wag_characters::situation::{ActionTracker, Situation};
use wag_characters::strike::{HitInfo, HitStun, StrikeFx, StrikeProfile, Stun, StunOutcome, Tuning};

fn tuning() -> Tuning {
    Tuning { big_hit_threshold: 20, small_hit_threshold: 10, on_hit_hitstop: 8, on_block_hitstop: 5, jackpot_meter_gain: 40 }
}

fn situation(sharpness: Option<i32>) -> Situation {
    let mut resources = vec![(ResourceType::Health, WAGResource { max: Some(100), min: 0, current: 100, special: None })];
    if let Some(s) = sharpness {
        resources.push((ResourceType::Sharpness, WAGResource { max: Some(10), min: 0, current: s, special: None }));
    }
    Situation {
        grounded: true,
        tracker: Some(ActionTracker::new(0, false, ActionId::TestMove)),
        inventory: Inventory::with_money(0),
        resources,
        status_flags: HashSet::new(),
        frame: 10,
        abs_frame: 100,
        stats: Stats::identity(),
        stick_position: StickPosition::Neutral,
        held_buttons: HashSet::new(),
        in_combo: false,
        stunned: false,
    }
}

fn hit(avoided: bool, airborne: bool) -> HitInfo {
    HitInfo { avoided, airborne, defender_stats: Stats::identity() }
}

fn profile() -> StrikeProfile {
    StrikeProfile::default()
        .with_damage(12)
        .with_blockstun(Stun::Relative(-2))
        .with_hitstun(Stun::Absolute(15))
}

#[test]
fn blocked_strike_deals_chip_and_block_stun() {
    let out = profile().resolve(10, &situation(None), &hit(true, false), &tuning());
    assert!(out.avoided);
    assert_eq!(out.chip_damage, Some(1));
    assert_eq!(out.block_stun, 8);
    assert_eq!(out.damage, 0);
    assert_eq!(out.hitstop, 5);
    assert_eq!(out.voice_line, None);
    let no_chip = HitInfo { defender_stats: Stats { chip_damage: false, ..Stats::identity() }, ..hit(true, false) };
    assert_eq!(profile().resolve(10, &situation(None), &no_chip, &tuning()).chip_damage, None);
}

#[test]
fn clean_hit_deals_damage_and_stun() {
    let out = profile().resolve(10, &situation(None), &hit(false, false), &tuning());
    assert!(!out.avoided);
    assert_eq!(out.damage, 12);
    assert_eq!(out.stun, StunOutcome::HitStun(15));
    assert_eq!(out.voice_line, Some(VoiceLine::SmallHit));
    assert_eq!(out.meter_gain, 0);
    assert_eq!(out.jackpot_level, 0);
    assert_eq!(out.hitstop, 8);
    assert!(!out.airborne_relaunch);
    assert!(profile().resolve(10, &situation(None), &hit(false, true), &tuning()).airborne_relaunch);
}

#[test]
fn sharpness_adds_damage() {
    let sword = profile().with_sharpness_scaling(5);
    let out = sword.resolve(10, &situation(Some(2)), &hit(false, false), &tuning());
    assert_eq!(out.damage, 22);
    assert_eq!(out.voice_line, Some(VoiceLine::BigHit));
}

#[test]
fn jackpot_levels_raise_damage_stun_and_meter() {
    let cases = [(100usize, 3u32, 24, 35, 40), (98, 2, 18, 25, 20), (104, 1, 15, 20, 10), (90, 0, 12, 15, 0)];
    for (target, level, damage, stun, meter) in cases {
        let mut sit = situation(None);
        sit.status_flags.insert(StatusFlag::Jackpot { target_frame: target });
        let out = profile().resolve(10, &sit, &hit(false, false), &tuning());
        assert_eq!(out.jackpot_level, level);
        assert_eq!(out.damage, damage);
        assert_eq!(out.stun, StunOutcome::HitStun(stun));
        assert_eq!(out.meter_gain, meter);
    }
}

#[test]
fn launchers_and_knockdowns() {
    let launch = profile().launches().resolve(0, &situation(None), &hit(false, true), &tuning());
    assert_eq!(launch.stun, StunOutcome::Launch);
    assert!(!launch.airborne_relaunch);
    let down = profile().knocks_down().resolve(0, &situation(None), &hit(false, false), &tuning());
    assert_eq!(down.stun, StunOutcome::Knockdown);
}

#[test]
fn strike_profile_builders() {
    let p = StrikeProfile::default();
    assert_eq!(p.block_height, AttackHeight::Mid);
    assert_eq!(p.chip_damage, 1);
    assert!(!p.complete());
    assert!(profile().complete());
    let p = profile().with_height(AttackHeight::Low).with_chip_damage(3).with_cancel_window(CancelType::Super, 7);
    assert_eq!(p.block_height, AttackHeight::Low);
    assert_eq!(p.chip_damage, 3);
    assert_eq!(p.cancel, Some((CancelType::Super, Some(7))));
    assert_eq!(
        p.cancel_event(),
        ActionEvent::Condition(StatusCondition { flag: StatusFlag::Cancel(CancelType::Super), expiration: Some(7) })
    );
    assert_eq!(p.without_cancel().cancel_event(), ActionEvent::Noop);
    assert_eq!(profile().with_cancel(CancelType::Anything).cancel, Some((CancelType::Anything, None)));
    assert_eq!(profile().with_hitstun(Stun::Relative(3)).hit_stun, HitStun::Stun(Stun::Relative(3)));
}

#[test]
fn hit_builders() {
    let normal = HitBuilder::normal();
    assert_eq!(normal.expand_hurtbox, Some(5));
    assert_eq!(normal.hit_count, 1);
    let special = HitBuilder::special();
    match &special.sub_builder {
        SubBuilder::Strike(p) => {
            assert_eq!(p.chip_damage, 2);
            assert_eq!(p.cancel, Some((CancelType::Super, None)));
        }
        SubBuilder::Throw(_) => panic!("a special hit is a strike"),
    }
    let sword = HitBuilder::normal().with_damage(30).sword().hits_low();
    assert_eq!(sword.expand_hurtbox, None);
    match &sword.sub_builder {
        SubBuilder::Strike(p) => {
            assert_eq!(p.base_damage, 30);
            assert_eq!(p.chip_damage, 5);
            assert_eq!(p.sharpness_scaling, 5);
            assert_eq!(p.block_height, AttackHeight::Low);
        }
        SubBuilder::Throw(_) => panic!("a sword hit is a strike"),
    }
    assert_eq!(sword.sub_builder.block_type(), BlockType::Strike(AttackHeight::Low));
    let frames = HitBuilder::normal().with_active_frames(4).with_multiple_hits(3).projectile();
    assert_eq!(frames.hitbox_lifetime, Lifetime::frames(4));
    assert_eq!(frames.hit_count, 3);
    assert!(frames.projectile);
    let complete = HitBuilder::normal().with_damage(5).with_advantage_on_block(-3).with_advantage_on_hit(2);
    assert!(complete.sub_builder.complete());
    assert!(!HitBuilder::normal().with_damage(5).sub_builder.complete());
}

#[test]
fn throws() {
    let throw = HitBuilder::normal().back_throw().throw_hit_action(ActionId::GiParry).throw_target_action(ActionId::FastFall);
    assert!(throw.is_throw());
    assert_eq!(throw.sub_builder.block_type(), BlockType::Grab);
    assert!(throw.sub_builder.complete());
    assert!(!HitBuilder::normal().forward_throw().sub_builder.complete());
    let (attacker, defender) = build_throw_effect(ActionId::GiParry, true, ActionId::FastFall, false);
    assert_eq!(attacker, vec![ActionEvent::StartAction(ActionId::GiParry)]);
    assert_eq!(
        defender,
        vec![ActionEvent::SnapToOpponent { sideswitch: true }, ActionEvent::StartAction(ActionId::FastFall)]
    );
    let (a, d) = build_throw_effect(ActionId::GiParry, true, ActionId::FastFall, true);
    assert!(a.is_empty() && d.is_empty());
}

fn strike_height(b: &HitBuilder) -> AttackHeight {
    match &b.sub_builder {
        SubBuilder::Strike(p) => p.block_height,
        SubBuilder::Throw(_) => panic!("not a strike"),
    }
}

#[test]
fn air_attacks_hit_overhead() {
    let earlier = AttackBuilder::normal().with_hit_on_frame(3, HitBuilder::normal()).air_only();
    assert_eq!(strike_height(&earlier.hits[0].1), AttackHeight::High);
    let later = AttackBuilder::normal().air_only().with_hit_on_frame(3, HitBuilder::normal().hits_low());
    assert_eq!(strike_height(&later.hits[0].1), AttackHeight::High);
    let grounded = AttackBuilder::normal().with_hit_on_frame(3, HitBuilder::normal().hits_low());
    assert_eq!(strike_height(&grounded.hits[0].1), AttackHeight::Low);
    let thrown = AttackBuilder::normal().air_only().with_hit_on_frame(1, HitBuilder::normal().forward_throw());
    assert!(thrown.hits[0].1.is_throw());
}

#[test]
fn attacks_place_their_hits_before_the_recovery() {
    let plan = AttackBuilder::button(GameButton::Fast)
        .with_hit_on_frame(4, HitBuilder::normal().with_damage(5))
        .with_hit_on_frame(9, HitBuilder::normal().with_damage(7))
        .with_total_duration(20)
        .build(50);
    assert_eq!(plan.action.input.as_deref(), Some("f"));
    assert!(!plan.action.transient);
    assert_eq!(plan.hits.len(), 2);
    assert_eq!((plan.hits[0].frame, plan.hits[0].recovery), (4, 16));
    assert_eq!((plan.hits[1].frame, plan.hits[1].recovery), (9, 11));
}

#[test]
fn comic_cancels_start_the_cooldown() {
    let mut sit = situation(None);
    let normal = AttackBuilder::normal();
    assert!(normal.opening_events(&sit).is_empty());
    sit.tracker = Some(ActionTracker::new(0, true, ActionId::TestMove));
    assert_eq!(
        normal.opening_events(&sit),
        vec![ActionEvent::Condition(StatusCondition { flag: StatusFlag::ComicCancelCooldown, expiration: None })]
    );
    assert!(AttackBuilder::special().opening_events(&sit).is_empty());
    assert!(AttackBuilder::normal().follow_up_from(vec![ActionId::TestMove]).opening_events(&sit).is_empty());
    assert_eq!(AttackBuilder::normal().action_builder.category, ActionCategory::Normal);
}

#[test]
fn hit_trackers_wait_between_hits() {
    let mut t = HitTracker::new(2);
    assert!(t.active(0));
    t.register_hit(5);
    assert_eq!(t.hits, 1);
    assert!(!t.active(14));
    assert!(t.active(15));
    assert_eq!(HitTracker::default().hits, 1);
}

#[test]
fn lifetimes_and_hit_properties() {
    assert_eq!(Lifetime::default().frames, Some(1));
    assert_eq!(Lifetime::until_owner_hit().frames, None);
    assert!(!Lifetime::eternal().despawn_on_hit);
    let p = HitProperty { on_hit: 3, on_block: 1 };
    assert_eq!(p.get(true), 1);
    assert_eq!(p.get(false), 3);
    assert_eq!(BlockType::default(), BlockType::Strike(AttackHeight::Mid));
}

#[test]
fn expired_entries_are_dropped_in_order() {
    let kept = expire(vec![("a", 3usize), ("b", 10), ("c", 5), ("d", 4)], 5);
    assert_eq!(kept, vec![("b", 10), ("c", 5)]);
}

#[test]
fn throw_sides_step_through_the_throw() {
    let throw = ThrowEffectBuilder::new(30, 40)
        .with_damage(15)
        .with_extra_target_events(vec![ActionEvent::HitStun(5)]);
    assert_eq!(throw.lock_duration, 29);
    let lock = ActionEvent::Condition(StatusCondition { flag: StatusFlag::MovementLock, expiration: Some(29) });
    match throw.target_step(&ActionClock::unscaled(0), 6) {
        ThrowStep::Start(evs) => assert_eq!(
            evs,
            vec![
                ActionEvent::FlipVisuals,
                ActionEvent::CameraShake,
                ActionEvent::Hitstop(6),
                ActionEvent::Flash(FlashKind::Hit),
                lock.clone(),
            ]
        ),
        other => panic!("unexpected {other:?}"),
    }
    match throw.target_step(&ActionClock::unscaled(29), 6) {
        ThrowStep::Release(evs) => assert_eq!(
            evs,
            vec![
                ActionEvent::ModifyResource(ResourceType::Health, -15),
                ActionEvent::FlipVisuals,
                ActionEvent::HitStun(5),
            ]
        ),
        other => panic!("unexpected {other:?}"),
    }
    assert!(matches!(throw.target_step(&ActionClock::unscaled(35), 6), ThrowStep::Rest(evs) if evs.is_empty()));
    assert!(matches!(throw.target_step(&ActionClock::unscaled(40), 6), ThrowStep::Rest(evs) if evs == vec![ActionEvent::End]));
    match throw.thrower_step(&ActionClock::unscaled(0), 6) {
        ThrowStep::Start(evs) => assert_eq!(evs, vec![lock, ActionEvent::Hitstop(6)]),
        other => panic!("unexpected {other:?}"),
    }
    assert!(matches!(throw.thrower_step(&ActionClock::unscaled(30), 6), ThrowStep::Rest(evs) if evs == vec![ActionEvent::End]));
    assert!(matches!(throw.thrower_step(&ActionClock::unscaled(12), 6), ThrowStep::Rest(evs) if evs.is_empty()));
}

#[test]
fn built_throws_have_two_plain_sides() {
    let (target, thrower) = ThrowEffectBuilder::new(20, 12)
        .with_damage(30)
        .with_extra_target_events(vec![ActionEvent::ForceAir])
        .build();
    assert_eq!(target.side, ThrowSide::Target);
    assert_eq!(thrower.side, ThrowSide::Thrower);
    for side in [&target, &thrower] {
        assert!(!side.transient);
        assert!(side.input.is_none());
        assert!(matches!(side.requirement, ActionRequirement::Unconditional));
        assert_eq!(side.effect.lock_duration, 11);
    }
    match target.step(&ActionClock::unscaled(11), 6) {
        ThrowStep::Release(evs) => assert_eq!(
            evs,
            vec![ActionEvent::ModifyResource(ResourceType::Health, -30), ActionEvent::FlipVisuals, ActionEvent::ForceAir]
        ),
        other => panic!("unexpected {other:?}"),
    }
    assert!(matches!(target.step(&ActionClock::unscaled(12), 6), ThrowStep::Rest(evs) if evs == vec![ActionEvent::End]));
    assert!(matches!(thrower.step(&ActionClock::unscaled(12), 6), ThrowStep::Rest(evs) if evs.is_empty()));
    assert!(matches!(thrower.step(&ActionClock::unscaled(20), 6), ThrowStep::Rest(evs) if evs == vec![ActionEvent::End]));
}

fn fx() -> StrikeFx {
    StrikeFx {
        attacker_push_on_block: 1,
        defender_push_on_block: 2,
        attacker_push_on_hit: 3,
        defender_push_on_hit: 4,
        block_tilt: 5,
        hit_tilt: 6,
        block_sound: 7,
        hit_sound: 8,
        block_spark: 9,
        hit_spark: 10,
        opener_sparks: (11, 12, 13),
        block_shake: 14,
        hit_shake: 15,
        momentum_damping: 16,
        launch: 17,
        knockdown: 18,
        relaunch: 19,
        jackpot_bells: (20, 21, 22),
        jackpot_ring: 23,
    }
}

#[test]
fn blocked_strike_events() {
    let p = profile();
    let out = p.resolve(10, &situation(None), &hit(true, false), &tuning());
    let effect = p.hit_effect(&out, &vec![], false, &fx());
    let cancel = ActionEvent::Condition(StatusCondition { flag: StatusFlag::Cancel(CancelType::Special), expiration: None });
    assert_eq!(
        effect.attacker,
        vec![
            cancel,
            ActionEvent::Movement(1),
            ActionEvent::CameraTilt(5),
            ActionEvent::Hitstop(5),
            ActionEvent::Sound(7),
            ActionEvent::AbsoluteVisualEffect(9),
        ]
    );
    assert_eq!(
        effect.defender,
        vec![
            ActionEvent::ModifyResource(ResourceType::Health, -1),
            ActionEvent::BlockStun(8),
            ActionEvent::Movement(2),
            ActionEvent::Hitstop(5),
            ActionEvent::CharacterShake(14),
        ]
    );
}

#[test]
fn clean_hit_events() {
    let p = profile().without_cancel();
    let out = p.resolve(10, &situation(None), &hit(false, true), &tuning());
    let effect = p.hit_effect(&out, &vec![ActionEvent::ForceAir], true, &fx());
    assert_eq!(
        effect.attacker,
        vec![
            ActionEvent::Noop,
            ActionEvent::Movement(3),
            ActionEvent::CameraTilt(6),
            ActionEvent::CameraShake,
            ActionEvent::Hitstop(8),
            ActionEvent::Sound(8),
            ActionEvent::AbsoluteVisualEffect(10),
            ActionEvent::ModifyResource(ResourceType::Meter, 0),
        ]
    );
    assert_eq!(
        effect.defender,
        vec![
            ActionEvent::ForceAir,
            ActionEvent::MultiplyMomentum(16),
            ActionEvent::HitStun(15),
            ActionEvent::Movement(4),
            ActionEvent::ModifyResource(ResourceType::Health, -12),
            ActionEvent::LaunchStun(19),
            ActionEvent::SayVoiceLine(VoiceLine::SmallHit),
            ActionEvent::Hitstop(8),
            ActionEvent::Flash(FlashKind::Hit),
            ActionEvent::CharacterShake(15),
        ]
    );
    let opener = p.hit_effect(&out, &vec![], false, &fx());
    assert_eq!(opener.attacker[6], ActionEvent::AbsoluteVisualEffect(12));
}

#[test]
fn built_strike_resolves_then_sends_its_events() {
    let p = profile();
    let effect = p.build(10, &situation(None), &hit(false, false), &tuning(), &vec![], &fx());
    assert_eq!(effect.defender[1], ActionEvent::HitStun(15));
    assert_eq!(effect.defender[3], ActionEvent::ModifyResource(ResourceType::Health, -12));
    assert_eq!(effect.defender[4], ActionEvent::Noop);
    assert_eq!(effect.defender[5], ActionEvent::SayVoiceLine(VoiceLine::SmallHit));
    let blocked = p.build(10, &situation(None), &hit(true, false), &tuning(), &vec![], &fx());
    assert_eq!(blocked.defender[0], ActionEvent::ModifyResource(ResourceType::Health, -1));
    assert_eq!(blocked.defender[1], ActionEvent::BlockStun(8));
}
