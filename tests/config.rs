use search_image::config::{Config, DbConfig, Device, Kind, MobilenetConfig, NetworkKind};

#[test]
fn resolution_of_each_kind() {
    assert_eq!(NetworkKind::Small.resolution(), 224);
    assert_eq!(NetworkKind::Medium.resolution(), 256);
    assert_eq!(NetworkKind::HybridMedium.resolution(), 256);
    assert_eq!(NetworkKind::Large.resolution(), 384);
    assert_eq!(NetworkKind::HybridLarge.resolution(), 384);
}

#[test]
fn model_filename_of_each_kind() {
    assert_eq!(
        NetworkKind::Small.model_filename(),
        "timm/mobilenetv4_conv_small.e2400_r224_in1k"
    );
    assert_eq!(
        NetworkKind::Medium.model_filename(),
        "timm/mobilenetv4_conv_medium.e500_r256_in1k"
    );
    assert_eq!(
        NetworkKind::HybridMedium.model_filename(),
        "timm/mobilenetv4_hybrid_medium.ix_e550_r256_in1k"
    );
    assert_eq!(
        NetworkKind::Large.model_filename(),
        "timm/mobilenetv4_conv_large.e600_r384_in1k"
    );
    assert_eq!(
        NetworkKind::HybridLarge.model_filename(),
        "timm/mobilenetv4_hybrid_large.ix_e600_r384_in1k"
    );
}

#[test]
fn kind_alias_names_the_same_variants() {
    let k: Kind = Kind::Medium;
    assert_eq!(k, NetworkKind::Medium);
    assert_eq!(k.resolution(), 256);
}

#[test]
fn defaults() {
    assert_eq!(NetworkKind::default(), NetworkKind::HybridLarge);
    assert_eq!(Device::default(), Device::Cpu);
    let db = DbConfig::default();
    assert_eq!(db.url(), "127.0.0.1");
    assert_eq!(db.port(), 6333);
    assert_eq!(db.collection(), "images");
    let m = MobilenetConfig::default();
    assert_eq!(m.kind(), NetworkKind::HybridLarge);
    assert_eq!(m.device(), Device::Cpu);
}

#[test]
fn db_config_keeps_its_fields() {
    let db = DbConfig::new("10.0.0.2".to_string(), 6334, "photos".to_string());
    assert_eq!(db.url(), "10.0.0.2");
    assert_eq!(db.port(), 6334);
    assert_eq!(db.collection(), "photos");
}

#[test]
fn mobilenet_config_keeps_its_fields() {
    let m = MobilenetConfig::new(NetworkKind::Small, Device::Gpu);
    assert_eq!(m.kind(), NetworkKind::Small);
    assert_eq!(m.device(), Device::Gpu);
}

#[test]
fn config_load_falls_back_to_defaults() {
    let c = Config::load(None);
    assert_eq!(c.port, 8080);
    assert_eq!(c.db.url(), "127.0.0.1");
    assert_eq!(c.db.port(), 6333);
    assert_eq!(c.db.collection(), "images");
    assert_eq!(c.mobilenet, MobilenetConfig::new(NetworkKind::HybridLarge, Device::Cpu));
}

#[test]
fn config_load_keeps_parsed_settings() {
    let parsed = Config {
        port: 9000,
        db: DbConfig::new("db".to_string(), 7000, "pics".to_string()),
        mobilenet: MobilenetConfig::new(NetworkKind::Large, Device::Metal),
    };
    let c = Config::load(Some(parsed));
    assert_eq!(c.port, 9000);
    assert_eq!(c.db.url(), "db");
    assert_eq!(c.db.collection(), "pics");
    assert_eq!(c.mobilenet.kind(), NetworkKind::Large);
}

#[test]
fn cpu_always_resolves() {
    let d = Device::Cpu.into_device().unwrap();
    assert!(d.is_cpu());
}

#[test]
fn accelerators_resolve_to_their_own_family_or_fail() {
    match Device::Gpu.into_device() {
        Ok(d) => assert!(d.is_cuda()),
        Err(e) => assert_eq!(e, search_image::error::Error::CUDAError),
    }
    match Device::Metal.into_device() {
        Ok(d) => assert!(d.is_metal()),
        Err(e) => assert_eq!(e, search_image::error::Error::MetalError),
    }
}
