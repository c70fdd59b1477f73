use modalities::{Modality, PyModality};

#[test]
fn test_single_flags_bits() {
    assert_eq!(Modality::audio().bits(), 1);
    assert_eq!(Modality::image().bits(), 1 << 1);
    assert_eq!(Modality::text().bits(), 1 << 2);
    assert_eq!(Modality::video().bits(), 1 << 3);
    assert_eq!(Modality::other().bits(), 1 << 4);
    assert_eq!(Modality::none().bits(), 0);
}

#[test]
fn test_basic_combinations() {
    let combo = Modality::audio() | Modality::text();

    assert!(combo.contains(Modality::audio()));
    assert!(combo.contains(Modality::text()));
    assert!(!combo.contains(Modality::image()));
    assert_eq!(combo.bits(), Modality::audio().bits() | Modality::text().bits());
}

#[test]
fn test_bitwise_operations_are_inverse() {
    let a = Modality::audio();
    let b = Modality::text();
    let c = a | b;

    assert_eq!(c & a, a);
    assert_eq!(c & b, b);
    assert_eq!(a & b, Modality::none());
}

#[test]
fn test_to_names_single_and_multi() {
    let single = Modality::image();
    assert_eq!(single.to_names(), vec!["image"]);

    let multi = Modality::audio() | Modality::video();
    let names = multi.to_names();
    assert!(names.contains(&"audio"));
    assert!(names.contains(&"video"));
    assert_eq!(names.len(), 2);
}

#[test]
fn test_from_names_valid() {
    let combo = Modality::from_names(&["audio", "text"]).unwrap();
    assert!(combo.contains(Modality::audio()));
    assert!(combo.contains(Modality::text()));
    assert!(!combo.contains(Modality::image()));

    let all = Modality::from_names(&["audio", "image", "text", "video", "other"]).unwrap();
    assert_eq!(all, Modality::all());
}

#[test]
fn test_from_names_invalid() {
    let err = Modality::from_names(&["nonsense"]);
    assert!(err.is_err());
    assert!(err.unwrap_err().contains("Invalid modality name"));
}

#[test]
fn test_none_and_all_constants() {
    assert_eq!(Modality::none().bits(), 0);
    assert_eq!(
        Modality::all().bits(),
        Modality::audio().bits()
            | Modality::image().bits()
            | Modality::text().bits()
            | Modality::video().bits()
            | Modality::other().bits()
    );
}

#[test]
fn test_display_and_debug_consistency() {
    let m = Modality::audio() | Modality::text();
    let names = m.to_names();
    assert!(!format!("{:?}", m).is_empty());
    assert_eq!(names.len(), 2);
}

fn every_set() -> Vec<Modality> {
    (0u32..32).map(Modality::from_bits_truncate).collect()
}

#[test]
fn flags_are_distinct_powers_of_two() {
    let flags = [
        Modality::audio(),
        Modality::image(),
        Modality::text(),
        Modality::video(),
        Modality::other(),
    ];
    for (i, f) in flags.iter().enumerate() {
        assert_eq!(f.bits(), 1u32 << i);
        assert!(f.bits().is_power_of_two());
        for (j, g) in flags.iter().enumerate() {
            assert_eq!(i == j, f == g);
        }
    }
    let union = flags.iter().fold(Modality::none(), |acc, f| acc.union(*f));
    assert_eq!(union, Modality::all());
    assert_eq!(Modality::all().bits(), 31);
}

#[test]
fn union_and_intersect_obey_set_algebra() {
    let sets = every_set();
    for &a in &sets {
        assert_eq!(a.union(a), a);
        assert_eq!(a.intersect(a), a);
        for &b in &sets {
            assert_eq!(a.union(b), b.union(a));
            assert_eq!(a.intersect(b), b.intersect(a));
            assert_eq!(a.intersect(a.union(b)), a);
            assert!(a.contains(a.intersect(b)));
            assert!(b.contains(a.intersect(b)));
        }
    }
    let (a, b, c) = (Modality::audio(), Modality::text() | Modality::video(), Modality::all());
    assert_eq!(a.union(b).union(c), a.union(b.union(c)));
    assert_eq!(c.intersect(b).intersect(a), c.intersect(b.intersect(a)));
    assert_eq!(
        (Modality::audio() | Modality::image()).intersect(Modality::image() | Modality::text()),
        Modality::image()
    );
}

#[test]
fn contains_is_a_subset_test() {
    for x in every_set() {
        assert!(x.contains(Modality::none()));
        assert!(x.contains(x));
    }
    let a = Modality::image();
    let b = Modality::other();
    assert!(a.union(b).contains(a));
    assert!(a.union(b).contains(b));
    assert!(!Modality::audio().contains(Modality::audio() | Modality::text()));
    assert!(Modality::none().contains(Modality::none()));
}

#[test]
fn names_of_none_and_all() {
    assert!(Modality::none().to_names().is_empty());
    assert_eq!(
        Modality::all().to_names(),
        vec!["audio", "image", "text", "video", "other"]
    );
    for s in every_set() {
        assert_eq!(s.to_names().is_empty(), s == Modality::none());
    }
}

#[test]
fn names_round_trip_for_every_set() {
    for s in every_set() {
        let names = s.to_names();
        assert_eq!(Modality::from_names(&names), Ok(s));
    }
}

#[test]
fn from_names_examples() {
    assert_eq!(Modality::from_names(&[]), Ok(Modality::none()));
    let combo = Modality::from_names(&["audio", "text"]).unwrap();
    assert_eq!(combo, Modality::audio().union(Modality::text()));
    assert_eq!(combo.bits(), 5);
    assert_eq!(
        Modality::from_names(&["bogus"]),
        Err("Invalid modality name: bogus".to_string())
    );
    assert_eq!(
        Modality::from_names(&["audio", "image", "text", "video", "other"]),
        Ok(Modality::all())
    );
}

#[test]
fn from_names_reports_the_first_unknown_name() {
    assert_eq!(
        Modality::from_names(&["audio", "Video", "bogus"]),
        Err("Invalid modality name: Video".to_string())
    );
    assert_eq!(
        Modality::from_names(&["text", ""]),
        Err("Invalid modality name: ".to_string())
    );
}

#[test]
fn from_names_ignores_duplicates() {
    assert_eq!(
        Modality::from_names(&["text", "text", "other", "text"]),
        Ok(Modality::text() | Modality::other())
    );
}

#[test]
fn display_of_sets() {
    assert_eq!(Modality::none().display(), "none");
    for name in ["audio", "image", "text", "video", "other"] {
        assert_ne!(Modality::none().display(), name);
    }
    let both = Modality::audio().union(Modality::text());
    assert_eq!(both.display(), "audio | text");
    assert_eq!(Modality::video().display(), "video");
    assert_eq!(
        Modality::all().display(),
        "audio | image | text | video | other"
    );
    for s in every_set() {
        assert!(!s.display().is_empty());
    }
}

#[test]
fn names_follow_declaration_order() {
    let m = Modality::from_names(&["video", "audio"]).unwrap();
    assert_eq!(m.to_names(), vec!["audio", "video"]);
}

#[test]
fn from_bits_truncate_drops_undefined_bits() {
    assert_eq!(Modality::from_bits_truncate(0xFF).bits(), 31);
    assert_eq!(Modality::from_bits_truncate(0x24).bits(), 4);
    assert_eq!(Modality::from_bits_truncate(0), Modality::none());
}

#[test]
fn py_modality_operations() {
    let audio = PyModality::from_modality(Modality::audio());
    let text = PyModality::from_modality(Modality::text());
    let both = audio.__or__(&text);
    assert_eq!(both.bits(), 5);
    assert_eq!(both.__and__(&audio), audio);
    assert!(both.__contains__(&audio));
    assert!(!audio.__contains__(&both));
    assert!(audio.__contains__(&PyModality::new()));
    assert_eq!(both.names(), vec!["audio".to_string(), "text".to_string()]);
    assert_eq!(both.__str__(), "audio | text");
    assert_eq!(PyModality::new().__str__(), "none");
    assert!(PyModality::new().names().is_empty());
    assert_eq!(PyModality::from_modality(Modality::all()).bits(), 31);
}
