use rog_core::aura::{
    encode_effect, encode_effect_vec, AuraEffect, AuraModeNum, AuraParameters, AuraZone, Colour,
    Direction, LedBrightness, Speed, LED_MSG_LEN,
};
use rog_core::error::AuraError;
use rog_core::aura::{next_mode, prev_mode};
use rog_core::aura_detection::PowerZones;
use rog_core::aura_power::{AuraPowerState, LaptopAuraPower};

const ALL_MODES: [AuraModeNum; 12] = [
    AuraModeNum::Static,
    AuraModeNum::Breathe,
    AuraModeNum::Strobe,
    AuraModeNum::Rainbow,
    AuraModeNum::Star,
    AuraModeNum::Rain,
    AuraModeNum::Highlight,
    AuraModeNum::Laser,
    AuraModeNum::Ripple,
    AuraModeNum::Pulse,
    AuraModeNum::Comet,
    AuraModeNum::Flash,
];

#[test]
fn check_led_static_packet() {
    let st = AuraEffect {
        mode: AuraModeNum::Static,
        zone: AuraZone::NoZone,
        colour1: Colour {
            r: 0xff,
            g: 0x11,
            b: 0xdd,
        },
        colour2: Colour::default(),
        speed: Speed::Med,
        direction: Direction::Right,
    };
    let ar: [u8; LED_MSG_LEN] = encode_effect(&st);

    println!("{:02x?}", ar);
    let check = [
        0x5d, 0xb3, 0x0, 0x0, 0xff, 0x11, 0xdd, 0xeb, 0x0, 0x0, 0xa6, 0x0, 0x0, 0x0, 0x0, 0x0,
        0x0,
    ];
    assert_eq!(ar, check);
}

#[test]
fn check_led_static_zone_packet() {
    let mut st = AuraEffect {
        mode: AuraModeNum::Static,
        zone: AuraZone::Key1,
        colour1: Colour {
            r: 0xff,
            g: 0,
            b: 0,
        },
        colour2: Colour { r: 0, g: 0, b: 0 },
        speed: Speed::Low,
        direction: Direction::Left,
    };
    let capture = [
        0x5d, 0xb3, 0x01, 0x00, 0xff, 0x00, 0x00, 0xe1, 0x01, 0x0, 0x0, 0x0, 0x0, 0x0, 0x0, 0x0,
        0x0,
    ];
    assert_eq!(encode_effect(&st)[..9], capture[..9]);

    st.zone = AuraZone::Key2;
    st.colour1 = Colour {
        r: 0xff,
        g: 0xff,
        b: 0,
    };
    let capture = [
        0x5d, 0xb3, 0x02, 0x00, 0xff, 0xff, 0x00, 0xe1, 0x01, 0x0, 0x0, 0x0, 0x0, 0x0, 0x0, 0x0,
        0x0,
    ];
    assert_eq!(encode_effect(&st)[..9], capture[..9]);

    st.zone = AuraZone::Key3;
    st.colour1 = Colour {
        r: 0,
        g: 0xff,
        b: 0xff,
    };
    let capture = [
        0x5d, 0xb3, 0x03, 0x00, 0x00, 0xff, 0xff, 0xe1, 0x01, 0x0, 0x0, 0x0, 0x0, 0x0, 0x0, 0x0,
        0x0,
    ];
    assert_eq!(encode_effect(&st)[..9], capture[..9]);

    st.zone = AuraZone::Key4;
    st.colour1 = Colour {
        r: 0xff,
        g: 0x00,
        b: 0xff,
    };
    let capture = [
        0x5d, 0xb3, 0x04, 0x00, 0xff, 0x00, 0xff, 0xe1, 0x01, 0x0, 0x0, 0x0, 0x0, 0x0, 0x0, 0x0,
        0x0,
    ];
    assert_eq!(encode_effect(&st)[..9], capture[..9]);

    st.zone = AuraZone::Logo;
    st.colour1 = Colour {
        r: 0x2c,
        g: 0xff,
        b: 0x00,
    };
    let capture = [
        0x5d, 0xb3, 0x05, 0x00, 0x2c, 0xff, 0x00, 0xe1, 0x01, 0x0, 0x0, 0x0, 0x0, 0x0, 0x0, 0x0,
        0x0,
    ];
    assert_eq!(encode_effect(&st)[..9], capture[..9]);

    st.zone = AuraZone::BarLeft;
    st.colour1 = Colour {
        r: 0xff,
        g: 0x00,
        b: 0x00,
    };
    let capture = [
        0x5d, 0xb3, 0x06, 0x00, 0xff, 0x00, 0x00, 0xe1, 0x01, 0x0, 0x0, 0x0, 0x0, 0x0, 0x0, 0x0,
        0x0,
    ];
    assert_eq!(encode_effect(&st)[..9], capture[..9]);

    st.zone = AuraZone::BarRight;
    st.colour1 = Colour {
        r: 0xff,
        g: 0x00,
        b: 0xcd,
    };
    let capture = [
        0x5d, 0xb3, 0x07, 0x00, 0xff, 0x00, 0xcd, 0xe1, 0x01, 0x0, 0x0, 0x0, 0x0, 0x0, 0x0, 0x0,
        0x0,
    ];
    assert_eq!(encode_effect(&st)[..9], capture[..9]);

    st.mode = AuraModeNum::Rainbow;
    let capture = [
        0x5d, 0xb3, 0x07, 0x03, 0xff, 0x00, 0xcd, 0xe1, 0x01, 0x0, 0x0, 0x0, 0x0, 0x0, 0x0, 0x0,
        0x0,
    ];
    assert_eq!(encode_effect(&st)[..9], capture[..9]);
}

#[test]
fn effect_message_is_the_same_for_the_same_effect() {
    let effect = AuraEffect {
        mode: AuraModeNum::Star,
        zone: AuraZone::Logo,
        colour1: Colour { r: 1, g: 2, b: 3 },
        colour2: Colour { r: 4, g: 5, b: 6 },
        speed: Speed::High,
        direction: Direction::Down,
    };
    let first = encode_effect(&effect);
    let second = encode_effect(&effect.clone());
    assert_eq!(first, second);
    assert_eq!(
        first,
        [0x5d, 0xb3, 5, 4, 1, 2, 3, 0xf5, 3, 0, 4, 5, 6, 0, 0, 0, 0]
    );
    assert_eq!(encode_effect_vec(&effect), first.to_vec());
}

#[test]
fn zone_changes_only_byte_two_and_mode_only_byte_three() {
    let base = AuraEffect::default();
    let base_bytes = encode_effect(&base);
    let mut zoned = base;
    zoned.zone = AuraZone::BarRight;
    let zoned_bytes = encode_effect(&zoned);
    for i in 0..LED_MSG_LEN {
        if i == 2 {
            assert_eq!(zoned_bytes[i], 7);
            assert_ne!(zoned_bytes[i], base_bytes[i]);
        } else {
            assert_eq!(zoned_bytes[i], base_bytes[i]);
        }
    }
    let mut moded = base;
    moded.mode = AuraModeNum::Flash;
    let moded_bytes = encode_effect(&moded);
    for i in 0..LED_MSG_LEN {
        if i == 3 {
            assert_eq!(moded_bytes[i], 12);
        } else {
            assert_eq!(moded_bytes[i], base_bytes[i]);
        }
    }
}

#[test]
fn mode_codes_round_trip_and_skip_nine() {
    let codes: [u8; 12] = [0, 1, 2, 3, 4, 5, 6, 7, 8, 10, 11, 12];
    for (mode, code) in ALL_MODES.iter().zip(codes.iter()) {
        assert_eq!(mode.code(), *code);
        assert_ne!(mode.code(), 9);
        assert_eq!(AuraModeNum::try_from_code(*code), Some(*mode));
    }
    // Every number is either the number of exactly one mode or refused.
    for code in 0..=255u8 {
        match AuraModeNum::try_from_code(code) {
            Some(mode) => {
                assert!(codes.contains(&code));
                assert_eq!(mode.code(), code);
            }
            None => assert!(code == 9 || code > 12),
        }
    }
    assert_eq!(AuraModeNum::try_from_code(9), None);
    assert_eq!(AuraModeNum::try_from_code(13), None);
    assert_eq!(AuraModeNum::try_from_code(255), None);
}

#[test]
fn mode_names_round_trip() {
    let names = [
        "Static",
        "Breathe",
        "Strobe",
        "Rainbow",
        "Stars",
        "Rain",
        "Highlight",
        "Laser",
        "Ripple",
        "Pulse",
        "Comet",
        "Flash",
    ];
    for (mode, name) in ALL_MODES.iter().zip(names.iter()) {
        assert_eq!(mode.name(), *name);
        assert_eq!(AuraModeNum::from_name(name), *mode);
        assert_eq!(AuraModeNum::try_from_name(name), Some(*mode));
        assert_eq!(AuraEffect::default_with_mode(*mode).mode_name(), *name);
    }
    assert_eq!(AuraModeNum::try_from_name("Star"), None);
    assert_eq!(AuraModeNum::try_from_name("static"), None);
    assert_eq!(AuraModeNum::try_from_name(""), None);
    assert_eq!(AuraModeNum::from_name("Star"), AuraModeNum::Static);
    assert_eq!(AuraModeNum::from_name("flash"), AuraModeNum::Static);
    assert_eq!(AuraModeNum::from_name(""), AuraModeNum::Static);
}

#[test]
fn allowed_parameters_table() {
    let table: [(AuraModeNum, [bool; 5]); 12] = [
        (AuraModeNum::Static, [true, true, false, false, false]),
        (AuraModeNum::Breathe, [true, true, true, true, false]),
        (AuraModeNum::Strobe, [true, false, false, true, false]),
        (AuraModeNum::Rainbow, [true, false, false, true, true]),
        (AuraModeNum::Star, [true, true, true, true, true]),
        (AuraModeNum::Rain, [true, false, false, true, false]),
        (AuraModeNum::Highlight, [true, true, false, false, false]),
        (AuraModeNum::Laser, [true, true, false, true, false]),
        (AuraModeNum::Ripple, [true, true, false, true, false]),
        (AuraModeNum::Pulse, [true, true, false, false, false]),
        (AuraModeNum::Comet, [true, true, false, false, false]),
        (AuraModeNum::Flash, [true, true, false, false, false]),
    ];
    for (mode, want) in table.iter() {
        let p = AuraEffect::allowed_parameters(*mode);
        assert_eq!(
            p,
            AuraParameters::new(want[0], want[1], want[2], want[3], want[4])
        );
    }
}

#[test]
fn effect_getters_and_defaults() {
    let effect = AuraEffect::default();
    assert_eq!(*effect.mode(), AuraModeNum::Static);
    assert_eq!(effect.mode_num(), 0);
    assert_eq!(effect.zone(), AuraZone::NoZone);
    assert_eq!(effect.colour1, Colour { r: 166, g: 0, b: 0 });
    assert_eq!(effect.colour2, Colour { r: 0, g: 0, b: 0 });
    assert_eq!(effect.speed, Speed::Med);
    assert_eq!(effect.direction, Direction::Right);
    let pulse = AuraEffect::default_with_mode(AuraModeNum::Pulse);
    assert_eq!(pulse.mode_num(), 10);
    assert_eq!(pulse.colour1, Colour::default());
    assert_eq!(AuraModeNum::default(), AuraModeNum::Static);
    assert_eq!(AuraZone::default(), AuraZone::NoZone);
}

#[test]
fn brightness_steps_and_codes() {
    assert_eq!(LedBrightness::Off.next(), LedBrightness::Low);
    assert_eq!(LedBrightness::Low.next(), LedBrightness::Med);
    assert_eq!(LedBrightness::Med.next(), LedBrightness::High);
    assert_eq!(LedBrightness::High.next(), LedBrightness::Off);
    assert_eq!(LedBrightness::Off.prev(), LedBrightness::High);
    assert_eq!(LedBrightness::Low.prev(), LedBrightness::Off);
    assert_eq!(LedBrightness::Med.prev(), LedBrightness::Low);
    assert_eq!(LedBrightness::High.prev(), LedBrightness::Med);
    for level in [
        LedBrightness::Off,
        LedBrightness::Low,
        LedBrightness::Med,
        LedBrightness::High,
    ] {
        assert_eq!(level.next().prev(), level);
        assert_eq!(LedBrightness::from(u8::from(level)), level);
    }
    assert_eq!(u8::from(LedBrightness::High), 3);
    assert_eq!(LedBrightness::from(2), LedBrightness::Med);
    assert_eq!(LedBrightness::from(77), LedBrightness::Med);
    assert_eq!(LedBrightness::default(), LedBrightness::Med);
}

#[test]
fn speed_and_direction_codes() {
    assert_eq!(Speed::Low.code(), 0xe1);
    assert_eq!(Speed::Med.code(), 0xeb);
    assert_eq!(Speed::High.code(), 0xf5);
    assert_eq!(u8::from(Speed::Low), 0);
    assert_eq!(u8::from(Speed::Med), 1);
    assert_eq!(u8::from(Speed::High), 2);
    assert_eq!(Direction::Right.code(), 0);
    assert_eq!(Direction::Left.code(), 1);
    assert_eq!(Direction::Up.code(), 2);
    assert_eq!(Direction::Down.code(), 3);
    assert_eq!(AuraZone::BarLeft.code(), 6);
}

#[test]
fn colour_from_text() {
    assert_eq!(
        Colour::from_str("ff11dd"),
        Ok(Colour {
            r: 0xff,
            g: 0x11,
            b: 0xdd
        })
    );
    assert_eq!(
        Colour::from_str("00A0fFrest"),
        Ok(Colour {
            r: 0,
            g: 0xa0,
            b: 0xff
        })
    );
    assert_eq!(
        Colour::from_str("+f+0+a"),
        Ok(Colour {
            r: 15,
            g: 0,
            b: 10
        })
    );
    assert_eq!(Colour::from_str("ff11d"), Err(AuraError::ParseColour));
    assert_eq!(Colour::from_str(""), Err(AuraError::ParseColour));
    assert_eq!(Colour::from_str("gg0000"), Err(AuraError::ParseColour));
    assert_eq!(Colour::from_str("-10000"), Err(AuraError::ParseColour));
    assert_eq!(Colour::from_str("0000+ "), Err(AuraError::ParseColour));
    assert_eq!(Colour::from_bytes(b"0a0b0c"), Ok(Colour { r: 10, g: 11, b: 12 }));
    assert_eq!(Colour::from(&[1u8, 2, 3]), Colour { r: 1, g: 2, b: 3 });
    assert_eq!(Colour { r: 9, g: 8, b: 7 }.to_bytes(), [9, 8, 7]);
}

#[test]
fn speed_direction_and_zone_from_text() {
    assert_eq!(Speed::from_str("low"), Ok(Speed::Low));
    assert_eq!(Speed::from_str("MED"), Ok(Speed::Med));
    assert_eq!(Speed::from_str("High"), Ok(Speed::High));
    assert_eq!(Speed::from_str("fast"), Err(AuraError::ParseSpeed));
    assert_eq!(Speed::from_lowercase("HIGH"), Err(AuraError::ParseSpeed));
    assert_eq!(Direction::from_str("Right"), Ok(Direction::Right));
    assert_eq!(Direction::from_str("UP"), Ok(Direction::Up));
    assert_eq!(Direction::from_str("down"), Ok(Direction::Down));
    assert_eq!(Direction::from_str("lEFT"), Ok(Direction::Left));
    assert_eq!(Direction::from_str("north"), Err(AuraError::ParseDirection));
    assert_eq!(Direction::from_lowercase("Up"), Err(AuraError::ParseDirection));
    assert_eq!(AuraZone::from_str("0"), Ok(AuraZone::NoZone));
    assert_eq!(AuraZone::from_str("None"), Ok(AuraZone::NoZone));
    assert_eq!(AuraZone::from_str("one"), Ok(AuraZone::Key1));
    assert_eq!(AuraZone::from_str("2"), Ok(AuraZone::Key2));
    assert_eq!(AuraZone::from_str("THREE"), Ok(AuraZone::Key3));
    assert_eq!(AuraZone::from_str("four"), Ok(AuraZone::Key4));
    assert_eq!(AuraZone::from_str("Logo"), Ok(AuraZone::Logo));
    assert_eq!(AuraZone::from_str("lightbar-left"), Ok(AuraZone::BarLeft));
    assert_eq!(AuraZone::from_str("LIGHTBAR-RIGHT"), Ok(AuraZone::BarRight));
    assert_eq!(AuraZone::from_str("8"), Err(AuraError::ParseSpeed));
    assert_eq!(AuraZone::from_lowercase("Logo"), Err(AuraError::ParseSpeed));
}

#[test]
fn stepping_through_supported_modes() {
    let modes = [
        AuraModeNum::Static,
        AuraModeNum::Breathe,
        AuraModeNum::Pulse,
        AuraModeNum::Breathe,
    ];
    assert_eq!(next_mode(&modes, AuraModeNum::Static), Some(AuraModeNum::Breathe));
    assert_eq!(next_mode(&modes, AuraModeNum::Breathe), Some(AuraModeNum::Pulse));
    assert_eq!(next_mode(&modes, AuraModeNum::Pulse), Some(AuraModeNum::Breathe));
    assert_eq!(next_mode(&modes[..3], AuraModeNum::Pulse), Some(AuraModeNum::Static));
    assert_eq!(next_mode(&modes, AuraModeNum::Rain), None);
    assert_eq!(next_mode(&[], AuraModeNum::Static), None);
    assert_eq!(prev_mode(&modes, AuraModeNum::Static), Some(AuraModeNum::Breathe));
    assert_eq!(prev_mode(&modes[..3], AuraModeNum::Static), Some(AuraModeNum::Pulse));
    assert_eq!(prev_mode(&modes, AuraModeNum::Breathe), Some(AuraModeNum::Static));
    assert_eq!(prev_mode(&modes, AuraModeNum::Pulse), Some(AuraModeNum::Breathe));
    assert_eq!(prev_mode(&modes, AuraModeNum::Flash), None);
    assert_eq!(
        next_mode(&[AuraModeNum::Comet], AuraModeNum::Comet),
        Some(AuraModeNum::Comet)
    );
    assert_eq!(
        AuraModeNum::from(AuraEffect::default_with_mode(AuraModeNum::Laser)),
        AuraModeNum::Laser
    );
}

#[test]
fn power_states_of_zones() {
    assert_eq!(PowerZones::from_flags(true, true), PowerZones::KeyboardAndLightbar);
    assert_eq!(PowerZones::from_flags(false, true), PowerZones::Lightbar);
    assert_eq!(PowerZones::from_flags(true, false), PowerZones::Keyboard);
    assert_eq!(PowerZones::from_flags(false, false), PowerZones::Keyboard);
    let old = LaptopAuraPower::old_laptop(false, true, Some(true), None, Some(false));
    assert_eq!(
        old.states,
        vec![AuraPowerState {
            zone: PowerZones::Lightbar,
            boot: true,
            awake: false,
            sleep: false,
            shutdown: false,
        }]
    );
    let state = |zone, on| AuraPowerState {
        zone,
        boot: on,
        awake: on,
        sleep: on,
        shutdown: on,
    };
    let mut power = LaptopAuraPower {
        states: vec![
            state(PowerZones::Keyboard, false),
            state(PowerZones::Logo, false),
            state(PowerZones::Logo, false),
        ],
    };
    let to = AuraPowerState {
        zone: PowerZones::Lid,
        boot: true,
        awake: false,
        sleep: true,
        shutdown: false,
    };
    power.set_zone(PowerZones::Logo, &to);
    assert_eq!(
        power.states,
        vec![
            state(PowerZones::Keyboard, false),
            AuraPowerState {
                zone: PowerZones::Logo,
                boot: true,
                awake: false,
                sleep: true,
                shutdown: false,
            },
            state(PowerZones::Logo, false),
        ]
    );
    let before = power.states.clone();
    power.set_zone(PowerZones::RearGlow, &to);
    assert_eq!(power.states, before);
}
