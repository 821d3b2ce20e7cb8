//! The closed sets of values that describe a release, with their wire names.
use crate::text::str_eq;
use vstd::prelude::*;

verus! {
/// The C library a build links against.
#[derive(Clone, Copy, Debug, PartialEq, Eq, Structural)]
pub enum CLib {
    MUSL,
    GLIBC,
}

impl CLib {
    /// The wire name of the value.
    pub open spec fn name_spec(self) -> Seq<char> {
        match self {
            CLib::MUSL => "musl"@,
            CLib::GLIBC => "glibc"@,
        }
    }

    /// The value a wire name stands for, if any.
    pub open spec fn parse_spec(s: Seq<char>) -> Option<CLib> {
        if s == "musl"@ {
            Some(CLib::MUSL)
        } else if s == "glibc"@ {
            Some(CLib::GLIBC)
        } else {
            None
        }
    }

    /// The wire name of the value.
    pub fn as_str(&self) -> (r: &'static str)
        ensures
            r@ == self.name_spec(),
    {
        match self {
            CLib::MUSL => "musl",
            CLib::GLIBC => "glibc",
        }
    }

    /// Reads a wire name; `None` for a name that is not one of the values.
    pub fn from_name(s: &str) -> (r: Option<CLib>)
        ensures
            r == CLib::parse_spec(s@),
    {
        if str_eq(s, "musl") {
            return Some(CLib::MUSL);
        }
        if str_eq(s, "glibc") {
            return Some(CLib::GLIBC);
        }
        None
    }
}

/// The virtual machine implementation.
#[derive(Clone, Copy, Debug, PartialEq, Eq, Structural)]
pub enum AdoptiumJvmImpl {
    HotSpot,
}

impl AdoptiumJvmImpl {
    /// The wire name of the value.
    pub open spec fn name_spec(self) -> Seq<char> {
        match self {
            AdoptiumJvmImpl::HotSpot => "hotspot"@,
        }
    }

    /// The value a wire name stands for, if any.
    pub open spec fn parse_spec(s: Seq<char>) -> Option<AdoptiumJvmImpl> {
        if s == "hotspot"@ {
            Some(AdoptiumJvmImpl::HotSpot)
        } else {
            None
        }
    }

    /// The wire name of the value.
    pub fn as_str(&self) -> (r: &'static str)
        ensures
            r@ == self.name_spec(),
    {
        match self {
            AdoptiumJvmImpl::HotSpot => "hotspot",
        }
    }

    /// Reads a wire name; `None` for a name that is not one of the values.
    pub fn from_name(s: &str) -> (r: Option<AdoptiumJvmImpl>)
        ensures
            r == AdoptiumJvmImpl::parse_spec(s@),
    {
        if str_eq(s, "hotspot") {
            return Some(AdoptiumJvmImpl::HotSpot);
        }
        None
    }
}

impl Default for AdoptiumJvmImpl {
    fn default() -> (r: AdoptiumJvmImpl)
        ensures
            r == AdoptiumJvmImpl::HotSpot,
    {
        AdoptiumJvmImpl::HotSpot
    }
}

/// The heap layout of a build.
#[derive(Clone, Copy, Debug, PartialEq, Eq, Structural)]
pub enum HeapSize {
    Normal,
    Large,
}

impl HeapSize {
    /// The wire name of the value.
    pub open spec fn name_spec(self) -> Seq<char> {
        match self {
            HeapSize::Normal => "normal"@,
            HeapSize::Large => "large"@,
        }
    }

    /// The value a wire name stands for, if any.
    pub open spec fn parse_spec(s: Seq<char>) -> Option<HeapSize> {
        if s == "normal"@ {
            Some(HeapSize::Normal)
        } else if s == "large"@ {
            Some(HeapSize::Large)
        } else {
            None
        }
    }

    /// The wire name of the value.
    pub fn as_str(&self) -> (r: &'static str)
        ensures
            r@ == self.name_spec(),
    {
        match self {
            HeapSize::Normal => "normal",
            HeapSize::Large => "large",
        }
    }

    /// Reads a wire name; `None` for a name that is not one of the values.
    pub fn from_name(s: &str) -> (r: Option<HeapSize>)
        ensures
            r == HeapSize::parse_spec(s@),
    {
        if str_eq(s, "normal") {
            return Some(HeapSize::Normal);
        }
        if str_eq(s, "large") {
            return Some(HeapSize::Large);
        }
        None
    }
}

impl Default for HeapSize {
    fn default() -> (r: HeapSize)
        ensures
            r == HeapSize::Normal,
    {
        HeapSize::Normal
    }
}

/// The project a build comes from.
#[derive(Clone, Copy, Debug, PartialEq, Eq, Structural)]
pub enum Project {
    JDK,
    Valhalla,
    Metropolis,
    JRF,
    Shenandoah,
}

impl Project {
    /// The wire name of the value.
    pub open spec fn name_spec(self) -> Seq<char> {
        match self {
            Project::JDK => "jdk"@,
            Project::Valhalla => "valhalla"@,
            Project::Metropolis => "metropolis"@,
            Project::JRF => "jrf"@,
            Project::Shenandoah => "shenandoah"@,
        }
    }

    /// The value a wire name stands for, if any.
    pub open spec fn parse_spec(s: Seq<char>) -> Option<Project> {
        if s == "jdk"@ {
            Some(Project::JDK)
        } else if s == "valhalla"@ {
            Some(Project::Valhalla)
        } else if s == "metropolis"@ {
            Some(Project::Metropolis)
        } else if s == "jrf"@ {
            Some(Project::JRF)
        } else if s == "shenandoah"@ {
            Some(Project::Shenandoah)
        } else {
            None
        }
    }

    /// The wire name of the value.
    pub fn as_str(&self) -> (r: &'static str)
        ensures
            r@ == self.name_spec(),
    {
        match self {
            Project::JDK => "jdk",
            Project::Valhalla => "valhalla",
            Project::Metropolis => "metropolis",
            Project::JRF => "jrf",
            Project::Shenandoah => "shenandoah",
        }
    }

    /// Reads a wire name; `None` for a name that is not one of the values.
    pub fn from_name(s: &str) -> (r: Option<Project>)
        ensures
            r == Project::parse_spec(s@),
    {
        if str_eq(s, "jdk") {
            return Some(Project::JDK);
        }
        if str_eq(s, "valhalla") {
            return Some(Project::Valhalla);
        }
        if str_eq(s, "metropolis") {
            return Some(Project::Metropolis);
        }
        if str_eq(s, "jrf") {
            return Some(Project::JRF);
        }
        if str_eq(s, "shenandoah") {
            return Some(Project::Shenandoah);
        }
        None
    }
}

impl Default for Project {
    fn default() -> (r: Project)
        ensures
            r == Project::JDK,
    {
        Project::JDK
    }
}

/// The kind of image a binary holds.
#[derive(Clone, Copy, Debug, PartialEq, Eq, Structural)]
pub enum ImageType {
    JDK,
    JRE,
    TestImage,
    DebugImage,
    StaticLibs,
    Sources,
}

impl ImageType {
    /// The wire name of the value.
    pub open spec fn name_spec(self) -> Seq<char> {
        match self {
            ImageType::JDK => "jdk"@,
            ImageType::JRE => "jre"@,
            ImageType::TestImage => "testimage"@,
            ImageType::DebugImage => "debugimage"@,
            ImageType::StaticLibs => "staticlibs"@,
            ImageType::Sources => "sources"@,
        }
    }

    /// The value a wire name stands for, if any.
    pub open spec fn parse_spec(s: Seq<char>) -> Option<ImageType> {
        if s == "jdk"@ {
            Some(ImageType::JDK)
        } else if s == "jre"@ {
            Some(ImageType::JRE)
        } else if s == "testimage"@ {
            Some(ImageType::TestImage)
        } else if s == "debugimage"@ {
            Some(ImageType::DebugImage)
        } else if s == "staticlibs"@ {
            Some(ImageType::StaticLibs)
        } else if s == "sources"@ {
            Some(ImageType::Sources)
        } else {
            None
        }
    }

    /// The wire name of the value.
    pub fn as_str(&self) -> (r: &'static str)
        ensures
            r@ == self.name_spec(),
    {
        match self {
            ImageType::JDK => "jdk",
            ImageType::JRE => "jre",
            ImageType::TestImage => "testimage",
            ImageType::DebugImage => "debugimage",
            ImageType::StaticLibs => "staticlibs",
            ImageType::Sources => "sources",
        }
    }

    /// Reads a wire name; `None` for a name that is not one of the values.
    pub fn from_name(s: &str) -> (r: Option<ImageType>)
        ensures
            r == ImageType::parse_spec(s@),
    {
        if str_eq(s, "jdk") {
            return Some(ImageType::JDK);
        }
        if str_eq(s, "jre") {
            return Some(ImageType::JRE);
        }
        if str_eq(s, "testimage") {
            return Some(ImageType::TestImage);
        }
        if str_eq(s, "debugimage") {
            return Some(ImageType::DebugImage);
        }
        if str_eq(s, "staticlibs") {
            return Some(ImageType::StaticLibs);
        }
        if str_eq(s, "sources") {
            return Some(ImageType::Sources);
        }
        None
    }
}

impl Default for ImageType {
    fn default() -> (r: ImageType)
        ensures
            r == ImageType::JDK,
    {
        ImageType::JDK
    }
}

/// General availability or early access.
#[derive(Clone, Copy, Debug, PartialEq, Eq, Structural)]
pub enum ReleaseType {
    GeneralAvailability,
    EarlyAccess,
}

impl ReleaseType {
    /// The wire name of the value.
    pub open spec fn name_spec(self) -> Seq<char> {
        match self {
            ReleaseType::GeneralAvailability => "ga"@,
            ReleaseType::EarlyAccess => "ea"@,
        }
    }

    /// The value a wire name stands for, if any.
    pub open spec fn parse_spec(s: Seq<char>) -> Option<ReleaseType> {
        if s == "ga"@ {
            Some(ReleaseType::GeneralAvailability)
        } else if s == "ea"@ {
            Some(ReleaseType::EarlyAccess)
        } else {
            None
        }
    }

    /// The wire name of the value.
    pub fn as_str(&self) -> (r: &'static str)
        ensures
            r@ == self.name_spec(),
    {
        match self {
            ReleaseType::GeneralAvailability => "ga",
            ReleaseType::EarlyAccess => "ea",
        }
    }

    /// Reads a wire name; `None` for a name that is not one of the values.
    pub fn from_name(s: &str) -> (r: Option<ReleaseType>)
        ensures
            r == ReleaseType::parse_spec(s@),
    {
        if str_eq(s, "ga") {
            return Some(ReleaseType::GeneralAvailability);
        }
        if str_eq(s, "ea") {
            return Some(ReleaseType::EarlyAccess);
        }
        None
    }
}

impl Default for ReleaseType {
    fn default() -> (r: ReleaseType)
        ensures
            r == ReleaseType::GeneralAvailability,
    {
        ReleaseType::GeneralAvailability
    }
}

/// The vendor of a release.
#[derive(Clone, Copy, Debug, PartialEq, Eq, Structural)]
pub enum Vendor {
    Eclipse,
}

impl Vendor {
    /// The wire name of the value.
    pub open spec fn name_spec(self) -> Seq<char> {
        match self {
            Vendor::Eclipse => "eclipse"@,
        }
    }

    /// The value a wire name stands for, if any.
    pub open spec fn parse_spec(s: Seq<char>) -> Option<Vendor> {
        if s == "eclipse"@ {
            Some(Vendor::Eclipse)
        } else {
            None
        }
    }

    /// The wire name of the value.
    pub fn as_str(&self) -> (r: &'static str)
        ensures
            r@ == self.name_spec(),
    {
        match self {
            Vendor::Eclipse => "eclipse",
        }
    }

    /// Reads a wire name; `None` for a name that is not one of the values.
    pub fn from_name(s: &str) -> (r: Option<Vendor>)
        ensures
            r == Vendor::parse_spec(s@),
    {
        if str_eq(s, "eclipse") {
            return Some(Vendor::Eclipse);
        }
        None
    }
}

/// A processor architecture.
#[derive(Clone, Copy, Debug, PartialEq, Eq, Structural)]
pub enum Architecture {
    X64,
    X86,
    X32,
    PPC64,
    PPC64LE,
    S390X,
    AArch64,
    ARM,
    SparcV9,
    RISCV64,
}

impl Architecture {
    /// The wire name of the value.
    pub open spec fn name_spec(self) -> Seq<char> {
        match self {
            Architecture::X64 => "x64"@,
            Architecture::X86 => "x86"@,
            Architecture::X32 => "x32"@,
            Architecture::PPC64 => "ppc64"@,
            Architecture::PPC64LE => "ppc64le"@,
            Architecture::S390X => "s390x"@,
            Architecture::AArch64 => "aarch64"@,
            Architecture::ARM => "arm"@,
            Architecture::SparcV9 => "sparcv9"@,
            Architecture::RISCV64 => "riscv64"@,
        }
    }

    /// The value a wire name stands for, if any.
    pub open spec fn parse_spec(s: Seq<char>) -> Option<Architecture> {
        if s == "x64"@ {
            Some(Architecture::X64)
        } else if s == "x86"@ {
            Some(Architecture::X86)
        } else if s == "x32"@ {
            Some(Architecture::X32)
        } else if s == "ppc64"@ {
            Some(Architecture::PPC64)
        } else if s == "ppc64le"@ {
            Some(Architecture::PPC64LE)
        } else if s == "s390x"@ {
            Some(Architecture::S390X)
        } else if s == "aarch64"@ {
            Some(Architecture::AArch64)
        } else if s == "arm"@ {
            Some(Architecture::ARM)
        } else if s == "sparcv9"@ {
            Some(Architecture::SparcV9)
        } else if s == "riscv64"@ {
            Some(Architecture::RISCV64)
        } else if s == "x86_64"@ {
            Some(Architecture::X64)
        } else {
            None
        }
    }

    /// The wire name of the value.
    pub fn as_str(&self) -> (r: &'static str)
        ensures
            r@ == self.name_spec(),
    {
        match self {
            Architecture::X64 => "x64",
            Architecture::X86 => "x86",
            Architecture::X32 => "x32",
            Architecture::PPC64 => "ppc64",
            Architecture::PPC64LE => "ppc64le",
            Architecture::S390X => "s390x",
            Architecture::AArch64 => "aarch64",
            Architecture::ARM => "arm",
            Architecture::SparcV9 => "sparcv9",
            Architecture::RISCV64 => "riscv64",
        }
    }

    /// Reads a wire name; `None` for a name that is not one of the values.
    pub fn from_name(s: &str) -> (r: Option<Architecture>)
        ensures
            r == Architecture::parse_spec(s@),
    {
        if str_eq(s, "x64") {
            return Some(Architecture::X64);
        }
        if str_eq(s, "x86") {
            return Some(Architecture::X86);
        }
        if str_eq(s, "x32") {
            return Some(Architecture::X32);
        }
        if str_eq(s, "ppc64") {
            return Some(Architecture::PPC64);
        }
        if str_eq(s, "ppc64le") {
            return Some(Architecture::PPC64LE);
        }
        if str_eq(s, "s390x") {
            return Some(Architecture::S390X);
        }
        if str_eq(s, "aarch64") {
            return Some(Architecture::AArch64);
        }
        if str_eq(s, "arm") {
            return Some(Architecture::ARM);
        }
        if str_eq(s, "sparcv9") {
            return Some(Architecture::SparcV9);
        }
        if str_eq(s, "riscv64") {
            return Some(Architecture::RISCV64);
        }
        if str_eq(s, "x86_64") {
            return Some(Architecture::X64);
        }
        None
    }
}

/// An operating system.
#[derive(Clone, Copy, Debug, PartialEq, Eq, Structural)]
pub enum OS {
    Linux,
    AlpineLinux,
    Windows,
}

impl OS {
    /// The wire name of the value.
    pub open spec fn name_spec(self) -> Seq<char> {
        match self {
            OS::Linux => "linux"@,
            OS::AlpineLinux => "alpine-linux"@,
            OS::Windows => "windows"@,
        }
    }

    /// The value a wire name stands for, if any.
    pub open spec fn parse_spec(s: Seq<char>) -> Option<OS> {
        if s == "linux"@ {
            Some(OS::Linux)
        } else if s == "alpine-linux"@ {
            Some(OS::AlpineLinux)
        } else if s == "windows"@ {
            Some(OS::Windows)
        } else if s == "alpinelinux"@ {
            Some(OS::AlpineLinux)
        } else {
            None
        }
    }

    /// The wire name of the value.
    pub fn as_str(&self) -> (r: &'static str)
        ensures
            r@ == self.name_spec(),
    {
        match self {
            OS::Linux => "linux",
            OS::AlpineLinux => "alpine-linux",
            OS::Windows => "windows",
        }
    }

    /// Reads a wire name; `None` for a name that is not one of the values.
    pub fn from_name(s: &str) -> (r: Option<OS>)
        ensures
            r == OS::parse_spec(s@),
    {
        if str_eq(s, "linux") {
            return Some(OS::Linux);
        }
        if str_eq(s, "alpine-linux") {
            return Some(OS::AlpineLinux);
        }
        if str_eq(s, "windows") {
            return Some(OS::Windows);
        }
        if str_eq(s, "alpinelinux") {
            return Some(OS::AlpineLinux);
        }
        None
    }
}

/// How the catalog sorts its answer.
#[derive(Clone, Copy, Debug, PartialEq, Eq, Structural)]
pub enum SortMethod {
    Default,
    Date,
}

impl SortMethod {
    /// The wire name of the value.
    pub open spec fn name_spec(self) -> Seq<char> {
        match self {
            SortMethod::Default => "DEFAULT"@,
            SortMethod::Date => "DATE"@,
        }
    }

    /// The value a wire name stands for, if any.
    pub open spec fn parse_spec(s: Seq<char>) -> Option<SortMethod> {
        if s == "DEFAULT"@ {
            Some(SortMethod::Default)
        } else if s == "DATE"@ {
            Some(SortMethod::Date)
        } else {
            None
        }
    }

    /// The wire name of the value.
    pub fn as_str(&self) -> (r: &'static str)
        ensures
            r@ == self.name_spec(),
    {
        match self {
            SortMethod::Default => "DEFAULT",
            SortMethod::Date => "DATE",
        }
    }

    /// Reads a wire name; `None` for a name that is not one of the values.
    pub fn from_name(s: &str) -> (r: Option<SortMethod>)
        ensures
            r == SortMethod::parse_spec(s@),
    {
        if str_eq(s, "DEFAULT") {
            return Some(SortMethod::Default);
        }
        if str_eq(s, "DATE") {
            return Some(SortMethod::Date);
        }
        None
    }
}

/// The direction of the catalog's sort.
#[derive(Clone, Copy, Debug, PartialEq, Eq, Structural)]
pub enum SortOrder {
    Descending,
    Ascending,
}

impl SortOrder {
    /// The wire name of the value.
    pub open spec fn name_spec(self) -> Seq<char> {
        match self {
            SortOrder::Descending => "DESC"@,
            SortOrder::Ascending => "ASC"@,
        }
    }

    /// The value a wire name stands for, if any.
    pub open spec fn parse_spec(s: Seq<char>) -> Option<SortOrder> {
        if s == "DESC"@ {
            Some(SortOrder::Descending)
        } else if s == "ASC"@ {
            Some(SortOrder::Ascending)
        } else {
            None
        }
    }

    /// The wire name of the value.
    pub fn as_str(&self) -> (r: &'static str)
        ensures
            r@ == self.name_spec(),
    {
        match self {
            SortOrder::Descending => "DESC",
            SortOrder::Ascending => "ASC",
        }
    }

    /// Reads a wire name; `None` for a name that is not one of the values.
    pub fn from_name(s: &str) -> (r: Option<SortOrder>)
        ensures
            r == SortOrder::parse_spec(s@),
    {
        if str_eq(s, "DESC") {
            return Some(SortOrder::Descending);
        }
        if str_eq(s, "ASC") {
            return Some(SortOrder::Ascending);
        }
        None
    }
}

/// The system a build is asked for.
#[derive(Clone, Copy, Debug, PartialEq, Eq, Structural)]
pub struct SystemProperties {
    pub os: OS,
    pub architecture: Architecture,
}

impl SystemProperties {
    /// The system named by an operating system name and an architecture name,
    /// as the host reports them; `None` when either is not supported.
    pub fn for_host(os: &str, arch: &str) -> (r: Option<SystemProperties>)
        ensures
            r is Some <==> (OS::parse_spec(os@) is Some && Architecture::parse_spec(arch@) is Some),
            r matches Some(p) ==> Some(p.os) == OS::parse_spec(os@) && Some(p.architecture)
                == Architecture::parse_spec(arch@),
    {
        match (OS::from_name(os), Architecture::from_name(arch)) {
            (Some(os), Some(architecture)) => Some(SystemProperties { os, architecture }),
            _ => None,
        }
    }
}

/// The sort and page of a catalog query.
#[derive(Clone, Copy, Debug, PartialEq, Eq, Structural)]
pub struct Sort {
    pub sort_order: SortOrder,
    pub sort_method: SortMethod,
    pub page: i64,
    pub page_size: i64,
}

impl Default for Sort {
    fn default() -> (r: Sort)
        ensures
            r == (Sort {
                sort_order: SortOrder::Descending,
                sort_method: SortMethod::Default,
                page: 0,
                page_size: 10,
            }),
    {
        Sort { sort_order: SortOrder::Descending, sort_method: SortMethod::Default, page: 0, page_size: 10 }
    }
}

/// Builds a `Sort`; a field left unset takes its value from `Sort::default()`.
#[derive(Clone, Copy, Debug, PartialEq, Eq, Structural)]
pub struct SortBuilder {
    pub sort_order: Option<SortOrder>,
    pub sort_method: Option<SortMethod>,
    pub page: Option<i64>,
    pub page_size: Option<i64>,
}

impl Default for SortBuilder {
    fn default() -> (r: SortBuilder)
        ensures
            r == (SortBuilder { sort_order: None, sort_method: None, page: None, page_size: None }),
    {
        SortBuilder { sort_order: None, sort_method: None, page: None, page_size: None }
    }
}

impl SortBuilder {
    pub fn sort_order(self, v: SortOrder) -> (r: SortBuilder)
        ensures
            r == (SortBuilder { sort_order: Some(v), ..self }),
    {
        SortBuilder { sort_order: Some(v), ..self }
    }

    pub fn sort_method(self, v: SortMethod) -> (r: SortBuilder)
        ensures
            r == (SortBuilder { sort_method: Some(v), ..self }),
    {
        SortBuilder { sort_method: Some(v), ..self }
    }

    pub fn page(self, v: i64) -> (r: SortBuilder)
        ensures
            r == (SortBuilder { page: Some(v), ..self }),
    {
        SortBuilder { page: Some(v), ..self }
    }

    pub fn page_size(self, v: i64) -> (r: SortBuilder)
        ensures
            r == (SortBuilder { page_size: Some(v), ..self }),
    {
        SortBuilder { page_size: Some(v), ..self }
    }

    /// The sort that the builder describes.
    pub open spec fn build_spec(self) -> Sort {
        Sort {
            sort_order: match self.sort_order {
                Some(v) => v,
                None => SortOrder::Descending,
            },
            sort_method: match self.sort_method {
                Some(v) => v,
                None => SortMethod::Default,
            },
            page: match self.page {
                Some(v) => v,
                None => 0,
            },
            page_size: match self.page_size {
                Some(v) => v,
                None => 10,
            },
        }
    }

    /// Builds the sort: each field set on the builder, else its default.
    pub fn build(&self) -> (r: Sort)
        ensures
            r == self.build_spec(),
    {
        let d = Sort::default();
        Sort {
            sort_order: match self.sort_order {
                Some(v) => v,
                None => d.sort_order,
            },
            sort_method: match self.sort_method {
                Some(v) => v,
                None => d.sort_method,
            },
            page: match self.page {
                Some(v) => v,
                None => d.page,
            },
            page_size: match self.page_size {
                Some(v) => v,
                None => d.page_size,
            },
        }
    }
}

/// A builder that carries a sort.
pub trait WithSort: Sized {
    /// The builder with its sort replaced by `sort`.
    spec fn sorted(self, sort: Sort) -> Self;

    fn set_sort(self, sort: Sort) -> (r: Self)
        ensures
            r == self.sorted(sort),
    ;

    /// Sets the sort that `sort_builder` describes.
    fn with_sort(self, sort_builder: SortBuilder) -> (r: Self)
        ensures
            r == self.sorted(sort_builder.build_spec()),
    {
        let sort = sort_builder.build();
        self.set_sort(sort)
    }
}

} // verus!
