use vstd::prelude::*;
use vstd::string::StringExecFns;

verus! {

/// The MobileNetV4 variants that can back an extractor.
#[derive(Debug, Clone, Copy, PartialEq, Eq, Structural, Hash)]
pub enum NetworkKind {
    Small,
    Medium,
    Large,
    HybridMedium,
    HybridLarge,
}

/// Name under which the HTTP service and the desktop front-end know the variants.
pub type Kind = NetworkKind;

impl NetworkKind {
    /// Side length, in pixels, of the square input the variant expects.
    pub open spec fn spec_resolution(self) -> u32 {
        match self {
            NetworkKind::Small => 224,
            NetworkKind::Medium | NetworkKind::HybridMedium => 256,
            NetworkKind::Large | NetworkKind::HybridLarge => 384,
        }
    }

    /// Repository of the pretrained weights on the model hub.
    pub open spec fn spec_model_filename(self) -> Seq<char> {
        match self {
            NetworkKind::Small => "timm/mobilenetv4_conv_small.e2400_r224_in1k"@,
            NetworkKind::Medium => "timm/mobilenetv4_conv_medium.e500_r256_in1k"@,
            NetworkKind::HybridMedium => "timm/mobilenetv4_hybrid_medium.ix_e550_r256_in1k"@,
            NetworkKind::Large => "timm/mobilenetv4_conv_large.e600_r384_in1k"@,
            NetworkKind::HybridLarge => "timm/mobilenetv4_hybrid_large.ix_e600_r384_in1k"@,
        }
    }

    pub fn model_filename(&self) -> (r: String)
        ensures
            r@ == self.spec_model_filename(),
    {
        match self {
            NetworkKind::Small => String::from_str("timm/mobilenetv4_conv_small.e2400_r224_in1k"),
            NetworkKind::Medium => String::from_str("timm/mobilenetv4_conv_medium.e500_r256_in1k"),
            NetworkKind::HybridMedium => String::from_str(
                "timm/mobilenetv4_hybrid_medium.ix_e550_r256_in1k",
            ),
            NetworkKind::Large => String::from_str("timm/mobilenetv4_conv_large.e600_r384_in1k"),
            NetworkKind::HybridLarge => String::from_str(
                "timm/mobilenetv4_hybrid_large.ix_e600_r384_in1k",
            ),
        }
    }

    pub fn resolution(&self) -> (r: u32)
        ensures
            r == self.spec_resolution(),
    {
        match self {
            NetworkKind::Small => 224,
            NetworkKind::Medium => 256,
            NetworkKind::HybridMedium => 256,
            NetworkKind::Large => 384,
            NetworkKind::HybridLarge => 384,
        }
    }
}

impl Default for NetworkKind {
    fn default() -> (r: NetworkKind)
        ensures
            r == NetworkKind::HybridLarge,
    {
        NetworkKind::HybridLarge
    }
}

/// The compute device an extractor is asked to run on.
#[derive(Debug, Clone, Copy, PartialEq, Eq, Structural)]
pub enum Device {
    Cpu,
    Gpu,
    Metal,
}

impl Default for Device {
    fn default() -> (r: Device)
        ensures
            r == Device::Cpu,
    {
        Device::Cpu
    }
}

/// Where the vector store listens and which collection holds the images.
#[derive(Debug, Clone)]
pub struct DbConfig {
    url: String,
    port: u16,
    collection: String,
}

impl DbConfig {
    pub closed spec fn spec_url(&self) -> Seq<char> {
        self.url@
    }

    pub closed spec fn spec_port(&self) -> u16 {
        self.port
    }

    pub closed spec fn spec_collection(&self) -> Seq<char> {
        self.collection@
    }

    pub fn new(url: String, port: u16, collection: String) -> (r: DbConfig)
        ensures
            r.spec_url() == url@,
            r.spec_port() == port,
            r.spec_collection() == collection@,
    {
        DbConfig { url, port, collection }
    }

    pub fn url(&self) -> (r: &str)
        ensures
            r@ == self.spec_url(),
    {
        self.url.as_str()
    }

    pub fn port(&self) -> (r: u16)
        ensures
            r == self.spec_port(),
    {
        self.port
    }

    pub fn collection(&self) -> (r: &str)
        ensures
            r@ == self.spec_collection(),
    {
        self.collection.as_str()
    }
}

impl Default for DbConfig {
    fn default() -> (r: DbConfig)
        ensures
            r.spec_url() == "127.0.0.1"@,
            r.spec_port() == 6333,
            r.spec_collection() == "images"@,
    {
        DbConfig {
            url: String::from_str("127.0.0.1"),
            port: 6333,
            collection: String::from_str("images"),
        }
    }
}

/// Which network to load and where to run it.
#[derive(Debug, Clone, Copy, PartialEq, Eq, Structural)]
pub struct MobilenetConfig {
    pub kind: NetworkKind,
    pub device: Device,
}

impl MobilenetConfig {
    pub fn new(kind: NetworkKind, device: Device) -> (r: MobilenetConfig)
        ensures
            r.kind == kind,
            r.device == device,
    {
        MobilenetConfig { kind, device }
    }

    pub fn kind(&self) -> (r: NetworkKind)
        ensures
            r == self.kind,
    {
        self.kind
    }

    pub fn device(&self) -> (r: Device)
        ensures
            r == self.device,
    {
        self.device
    }
}

impl Default for MobilenetConfig {
    fn default() -> (r: MobilenetConfig)
        ensures
            r.kind == NetworkKind::HybridLarge,
            r.device == Device::Cpu,
    {
        MobilenetConfig { kind: NetworkKind::HybridLarge, device: Device::Cpu }
    }
}

/// Settings of the HTTP service: the port it listens on, the store and the network.
#[derive(Debug, Clone)]
pub struct Config {
    pub port: u16,
    pub db: DbConfig,
    pub mobilenet: MobilenetConfig,
}

impl Config {
    /// Whether `c` holds the settings used when no configuration could be read.
    pub open spec fn is_default(c: Config) -> bool {
        &&& c.port == 8080
        &&& c.db.spec_url() == "127.0.0.1"@
        &&& c.db.spec_port() == 6333
        &&& c.db.spec_collection() == "images"@
        &&& c.mobilenet.kind == NetworkKind::HybridLarge
        &&& c.mobilenet.device == Device::Cpu
    }

    /// The settings to run with, given what reading the configuration file produced:
    /// the parsed settings when there are any, the defaults otherwise.
    pub fn load(parsed: Option<Config>) -> (r: Config)
        ensures
            parsed matches Some(c) ==> r == c,
            parsed is None ==> Config::is_default(r),
    {
        match parsed {
            Some(c) => c,
            None => Config::default(),
        }
    }
}

impl Default for Config {
    fn default() -> (r: Config)
        ensures
            Config::is_default(r),
    {
        Config { port: 8080, db: DbConfig::default(), mobilenet: MobilenetConfig::default() }
    }
}

} // verus!
