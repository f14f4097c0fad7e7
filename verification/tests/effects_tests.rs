use haven::effects::{
    AllPoof, AllPoofNarrow, AllPoofWide, FadePairs, GreenToBlue, Light3, Light9, Nonagram, Poof1,
    Poof5, PoofRing, PoofRingNarrow, PoofRingWide, RandomPoof, RedToBlue, Solid,
};
use haven::model::create_elders;

#[test]
fn effect_names() {
    assert_eq!(Solid.name(), "Solid");
    assert_eq!(Light3.name(), "Light 3");
    assert_eq!(Poof5.name(), "Poof 5");
    assert_eq!(PoofRing.name(), "Poof Ring");
    assert_eq!(AllPoofNarrow.name(), "All Poof Narrow");
    assert_eq!(RedToBlue.name(), "Red to Blue");
    assert_eq!(Nonagram::new().name(), "Nonagram");
    assert_eq!(RandomPoof::new().name(), "Random Poof");
    assert_eq!(haven::effects::Pseudorandom.name(), "Pseudorandom");
    assert_eq!(haven::effects::Unison2Colors.name(), "Unison 2 Colors");
    assert_eq!(haven::effects::FadeRing2Colors.name(), "Fade Ring 2 Colors");
    assert_eq!(haven::effects::FadePairs.name(), "Fade Pairs");
    assert_eq!(haven::effects::GreenToBlue.name(), "Green to Blue");
}

#[test]
fn solid_paints_every_light() {
    let mut elders = create_elders();
    Solid.render(&mut elders, 0, 0);
    for elder in &elders {
        assert_eq!((elder.crane_light.r, elder.crane_light.g, elder.crane_light.b), (178, 178, 255));
    }
}

#[test]
fn light_effects_light_one_station() {
    let mut elders = create_elders();
    Light3.render(&mut elders, 1234, 567);
    for (i, elder) in elders.iter().enumerate() {
        let expected = if i == 2 { (255, 0, 255) } else { (0, 0, 0) };
        assert_eq!((elder.crane_light.r, elder.crane_light.g, elder.crane_light.b), expected);
        assert!(!elder.poofer_wide.on && !elder.poofer_narrow.on);
    }
    Light9.render(&mut elders, 0, 0);
    assert_eq!(elders[8].crane_light.r, 255);
    assert_eq!(elders[2].crane_light.r, 0);
}

#[test]
fn poof_effects_blast_for_300_ms() {
    let mut elders = create_elders();
    Poof1.render(&mut elders, 0, 100);
    assert!(elders[0].poofer_wide.on && elders[0].poofer_narrow.on);
    assert!(elders[0].poofer_wide.needs_to_send_command);
    assert!(!elders[1].poofer_wide.on);
    Poof1.render(&mut elders, 0, 400);
    assert!(!elders[0].poofer_wide.on && !elders[0].poofer_narrow.on);
    Poof5.render(&mut elders, 0, 299);
    assert!(elders[4].poofer_wide.on);
    Poof5.render(&mut elders, 0, 300);
    assert!(!elders[4].poofer_wide.on);
}

#[test]
fn all_poof_variants() {
    let mut elders = create_elders();
    AllPoof.render(&mut elders, 0, 100_000);
    for elder in &elders {
        assert!(elder.poofer_wide.on && elder.poofer_narrow.on);
    }
    let mut elders = create_elders();
    AllPoofWide.render(&mut elders, 0, 100);
    for elder in &elders {
        assert!(elder.poofer_wide.on && !elder.poofer_narrow.on);
    }
    AllPoofWide.render(&mut elders, 0, 301);
    for elder in &elders {
        assert!(!elder.poofer_wide.on);
    }
    let mut elders = create_elders();
    AllPoofNarrow.render(&mut elders, 0, 100);
    for elder in &elders {
        assert!(!elder.poofer_wide.on && elder.poofer_narrow.on);
    }
}

#[test]
fn poof_ring_walks_the_ring() {
    let mut elders = create_elders();
    // Four steps a second: at 500 ms the ring stands at station 2.
    PoofRing.render(&mut elders, 500, 0);
    for (i, elder) in elders.iter().enumerate() {
        assert_eq!(elder.poofer_wide.on, i == 2);
        assert_eq!(elder.poofer_narrow.on, i == 2);
    }
    // Wraps after nine steps: 2250 ms is station 0 again.
    PoofRing.render(&mut elders, 2250, 0);
    assert!(elders[0].poofer_wide.on && !elders[2].poofer_wide.on);

    let mut elders = create_elders();
    PoofRingWide.render(&mut elders, 1000, 0); // two steps a second
    for (i, elder) in elders.iter().enumerate() {
        assert_eq!(elder.poofer_wide.on, i == 2);
        assert!(!elder.poofer_narrow.on);
    }
    let mut elders = create_elders();
    PoofRingNarrow.render(&mut elders, 1000, 0);
    for (i, elder) in elders.iter().enumerate() {
        assert_eq!(elder.poofer_narrow.on, i == 2);
        assert!(!elder.poofer_wide.on);
    }
}

#[test]
fn red_to_blue_fades_round_the_ring() {
    let mut elders = create_elders();
    RedToBlue.render(&mut elders, 0, 0);
    // At time zero elder 0 is fully red; elder i stands i/9 of the way to
    // blue: level = 255 * (i * 20000 % 180000) / 180000.
    assert_eq!((elders[0].crane_light.r, elders[0].crane_light.b), (255, 0));
    for (i, elder) in elders.iter().enumerate() {
        let level = (255u64 * ((i as u64 * 20000) % 180000) / 180000) as u8;
        assert_eq!(elder.crane_light.r, 255 - level);
        assert_eq!(elder.crane_light.b, level);
        assert_eq!(elder.crane_light.g, 0); // untouched
    }
    // Half way through the cycle, elder 0 is mid-fade.
    let mut elders = create_elders();
    RedToBlue.render(&mut elders, 10_000, 0);
    let level = (255u64 * ((10_000u64 * 9) % 180_000) / 180_000) as u8;
    assert_eq!(elders[0].crane_light.b, level);
    assert_eq!(level, 127);
}

#[test]
fn green_to_blue_leaves_red_alone() {
    let mut elders = create_elders();
    elders[0].crane_light.r = 9;
    GreenToBlue.render(&mut elders, 0, 0);
    assert_eq!(elders[0].crane_light.r, 9);
    assert_eq!(elders[0].crane_light.g, 255);
    assert_eq!(elders[0].crane_light.b, 0);
}

#[test]
fn fade_pairs_touches_one_pair() {
    let mut elders = create_elders();
    // At 1000 ms: elder 0 fades out (level 255-127=128), elder 1 fades in
    // (level 127); both scaled 0.7 on red and green.
    FadePairs.render(&mut elders, 1000, 0);
    assert_eq!(elders[0].crane_light.b, 128);
    assert_eq!(elders[0].crane_light.r, (128u32 * 178 / 255) as u8);
    assert_eq!(elders[1].crane_light.b, 127);
    assert_eq!(elders[1].crane_light.r, (127u32 * 178 / 255) as u8);
    for elder in &elders[2..] {
        assert_eq!(elder.crane_light.b, 0);
    }
    // At 4500 ms the pair is elders 2 and 3.
    let mut elders = create_elders();
    FadePairs.render(&mut elders, 4500, 0);
    assert_eq!(elders[2].crane_light.b, 255 - (255 * 500 / 2000) as u8);
    assert_eq!(elders[3].crane_light.b, (255 * 500 / 2000) as u8);
    assert_eq!(elders[0].crane_light.b, 0);
}

#[test]
fn nonagram_advances_four_stations_per_blast() {
    let mut effect = Nonagram::new();
    let mut elders = create_elders();
    // First render at 600 ms crosses the 500 ms threshold once: the flame
    // moves from station 0 to station 4.
    effect.render(&mut elders, 0, 600);
    for (i, elder) in elders.iter().enumerate() {
        assert_eq!(elder.poofer_narrow.on, i == 4, "station {}", i);
        assert!(!elder.poofer_wide.on);
    }
    // The next threshold moves it to station 8.
    effect.render(&mut elders, 0, 1100);
    assert!(elders[8].poofer_narrow.on && !elders[4].poofer_narrow.on);
    // No threshold crossed: it stays.
    effect.render(&mut elders, 0, 1200);
    assert!(elders[8].poofer_narrow.on);
    // After the 900th blast the flame rests.
    effect.render(&mut elders, 0, 450_000);
    for elder in &elders {
        assert!(!elder.poofer_narrow.on);
    }
}

#[test]
fn random_poof_lights_exactly_one_station() {
    // Would fail if the random draw could fall outside the ring.
    for _ in 0..50 {
        let mut effect = RandomPoof::new();
        let mut elders = create_elders();
        effect.render(&mut elders, 0, 600);
        let burning = elders.iter().filter(|e| e.poofer_narrow.on).count();
        assert_eq!(burning, 1);
        assert!(elders.iter().all(|e| !e.poofer_wide.on));
    }
}
