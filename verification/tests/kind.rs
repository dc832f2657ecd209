use soomfon::kind::{queries, ImageMirroring, ImageMode, ImageRotation, Kind, ALL};

#[test]
fn resolves_the_users_soomfon_se() {
    assert_eq!(Kind::from_ids(0x1500, 0x3001), Some(Kind::SoomfonSe));
}

#[test]
fn unknown_ids_are_rejected() {
    assert_eq!(Kind::from_ids(0x1234, 0x5678), None);
}

#[test]
fn from_ids_round_trips_with_ids() {
    for kind in ALL {
        let (vid, pid) = kind.ids();
        assert_eq!(Kind::from_ids(vid, pid), Some(kind));
    }
}

#[test]
fn se_reports_both_states() {
    assert!(Kind::SoomfonSe.supports_both_states());
    assert!(!Kind::Akp03.supports_both_states());
}

#[test]
fn one_query_per_model() {
    assert_eq!(queries().len(), ALL.len());
}

#[test]
fn six_of_the_nine_keys_have_screens() {
    assert_eq!(Kind::SoomfonSe.lcd_key_count(), 6);
    assert!(Kind::SoomfonSe.lcd_key_count() < Kind::SoomfonSe.key_count());
}

#[test]
fn se_panel_image_is_rotated_jpeg() {
    let fmt = Kind::SoomfonSe.image_format();
    assert!(matches!(fmt.mode, ImageMode::JPEG));
    assert_eq!(fmt.size, (60, 60));
    assert!(matches!(fmt.rotation, ImageRotation::Rot90));
}

#[test]
fn plain_jpeg_models_are_not_rotated() {
    assert!(matches!(
        Kind::Akp03.image_format().rotation,
        ImageRotation::Rot0
    ));
}

#[test]
fn model_names_and_fixed_geometry() {
    assert_eq!(Kind::Akp03.model(), "Ajazz AKP03");
    assert_eq!(Kind::Akp03Erev2.model(), "Ajazz AKP03E (rev. 2)");
    assert_eq!(Kind::N3En.model(), "Mirabox N3EN");
    assert_eq!(Kind::SoomfonSe.model(), "Soomfon Stream Controller SE");
    for kind in ALL {
        assert_eq!(kind.key_count(), 9);
        assert_eq!(kind.encoder_count(), 3);
        assert!(kind.has_key_screens());
        assert!(kind.is_v2());
        assert_eq!(kind.key_image_size(), (60, 60));
        assert!(matches!(kind.image_format().mirror, ImageMirroring::Unmirrored));
    }
}

#[test]
fn shared_product_ids_are_told_apart_by_vendor() {
    assert_eq!(Kind::from_ids(0x0300, 0x1002), Some(Kind::Akp03E));
    assert_eq!(Kind::from_ids(0x6602, 0x1002), Some(Kind::N3));
    assert_eq!(Kind::from_ids(0x0300, 0x1003), Some(Kind::Akp03R));
    assert_eq!(Kind::from_ids(0x6603, 0x1003), Some(Kind::N3En));
    assert_eq!(Kind::from_ids(0x6603, 0x1002), None);
    assert_eq!(Kind::Akp03Erev2.ids(), (0x0300, 0x3002));
}

#[test]
fn rotated_models_are_exactly_the_two_state_ones() {
    for kind in ALL {
        let rotated = matches!(kind.image_format().rotation, ImageRotation::Rot90);
        assert_eq!(rotated, kind.supports_both_states());
    }
}
