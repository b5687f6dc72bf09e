use wag_characters::resources::{
    ChargeProperty, Properties, Property, ResourceType, SpecialProperty, Stats, WAGResource, WAGResources,
};

fn stats() -> Stats {
    Stats { max_health: 250, starting_meter: 30, extra_kunais: 2, ..Stats::identity() }
}

fn gauge(max: Option<i32>, min: i32, current: i32) -> WAGResource {
    WAGResource { max, min, current, special: None }
}

#[test]
fn change_is_clamped_to_the_bounds() {
    let mut g = gauge(Some(100), 0, 50);
    g.change(30);
    assert_eq!(g.current, 80);
    g.change(30);
    assert_eq!(g.current, 100);
    assert!(g.is_full());
    g.change(-250);
    assert_eq!(g.current, 0);
    assert!(g.is_empty());
}

#[test]
fn gain_drain_and_clear() {
    let mut g = gauge(Some(10), 2, 5);
    g.gain(3);
    assert_eq!(g.current, 8);
    g.drain(4);
    assert_eq!(g.current, 4);
    g.drain(100);
    assert_eq!(g.current, 2);
    g.gain(1);
    g.clear();
    assert_eq!(g.current, 2);
}

#[test]
fn a_gauge_without_maximum_is_full_at_the_largest_value() {
    let mut g = gauge(None, 0, i32::MAX - 1);
    assert!(!g.is_full());
    g.gain(1);
    assert_eq!(g.current, i32::MAX);
    assert!(g.is_full());
}

#[test]
fn default_gauge_is_empty_and_unbounded() {
    let g = WAGResource::default();
    assert_eq!(g.max, None);
    assert_eq!(g.min, 0);
    assert_eq!(g.current, 0);
    assert!(g.special.is_none());
}

#[test]
fn charge_property_defaults() {
    let c = ChargeProperty::default();
    assert_eq!(c.clear_time, 20);
    assert_eq!(c.last_gain_frame, 0);
    assert!(!c.charging);
    assert!(c.buttons.is_empty());
    assert_eq!(c.directions.len(), 3);
}

#[test]
fn resources_start_with_health_and_meter() {
    let extra = vec![(ResourceType::Charge, gauge(Some(30), 0, 0))];
    let res = WAGResources::from_stats(&stats(), extra);
    assert_eq!(res.0.len(), 3);
    assert_eq!(res.0[0].0, ResourceType::Health);
    assert_eq!(res.0[0].1.current, 250);
    assert_eq!(res.0[0].1.max, Some(250));
    assert_eq!(res.0[1].0, ResourceType::Meter);
    assert_eq!(res.0[1].1.max, Some(100));
    assert_eq!(res.0[1].1.current, 0);
    assert_eq!(res.0[2].0, ResourceType::Charge);
}

#[test]
fn lookups_take_the_first_gauge_of_a_type() {
    let mut res = WAGResources(vec![
        (ResourceType::Meter, gauge(Some(100), 0, 10)),
        (ResourceType::Meter, gauge(Some(100), 0, 90)),
    ]);
    assert_eq!(res.position(ResourceType::Meter), Some(0));
    assert_eq!(res.get(ResourceType::Meter).unwrap().current, 10);
    assert!(res.get(ResourceType::Health).is_none());
    res.get_mut(ResourceType::Meter).unwrap().gain(5);
    assert_eq!(res.0[0].1.current, 15);
    assert_eq!(res.0[1].1.current, 90);
    assert!(res.get_mut(ResourceType::Sharpness).is_none());
}

#[test]
fn reset_puts_gauges_back_for_a_new_round() {
    let mut res = WAGResources(vec![
        (ResourceType::Health, gauge(Some(10), 0, 3)),
        (ResourceType::Meter, gauge(Some(100), 0, 80)),
        (ResourceType::KunaiCounter, gauge(Some(5), 0, 0)),
        (ResourceType::Sharpness, gauge(Some(10), 0, 4)),
        (ResourceType::Charge, gauge(Some(30), 1, 20)),
    ]);
    res.reset(&stats());
    assert_eq!(res.0[0].1.current, 250);
    assert_eq!(res.0[0].1.max, Some(250));
    assert_eq!(res.0[1].1.current, 30);
    assert_eq!(res.0[2].1.current, 3);
    assert_eq!(res.0[3].1.current, 0);
    assert_eq!(res.0[4].1.current, 1);

    let mut kept = WAGResources(vec![(ResourceType::Sharpness, gauge(Some(10), 0, 4))]);
    kept.reset(&Stats { retain_sharpness: true, ..stats() });
    assert_eq!(kept.0[0].1.current, 4);
}

#[test]
fn properties_from_stats() {
    let props = Properties::from_stats(&stats());
    assert_eq!(props.health.max, 250);
    assert_eq!(props.health.current, 250);
    assert_eq!(props.meter.max, 100);
    assert_eq!(props.meter.current, 0);
    assert!(props.special_properties.is_empty());
    let with = props.with_specials(vec![Property { max: 5, ..Property::default() }]);
    assert_eq!(with.special_properties.len(), 1);
}

#[test]
fn property_change_stays_in_range() {
    let mut p = Property { max: 10, ..Property::default() };
    p.gain(15);
    assert_eq!(p.current, 10);
    assert!(p.is_full());
    p.drain(4);
    assert_eq!(p.current, 6);
    p.clear();
    assert!(p.is_empty());
}

#[test]
fn special_properties_carry_charge() {
    let s = SpecialProperty::Charge(ChargeProperty::default());
    match s {
        SpecialProperty::Charge(c) => assert_eq!(c.clear_time, 20),
    }
}
