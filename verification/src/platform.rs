//! The platforms for which a server build exists, and the naming that each
//! one fixes: download flavor, release channel, archive format.

use vstd::prelude::*;

use crate::text::{concat2, concat3, text_eq};

verus! {

/// A platform for which a server build is published.
#[derive(Debug, Clone, Copy, PartialEq, Eq, Structural)]
pub enum Platform {
    LinuxX64,
    LinuxArm64,
    LinuxArmhf,
    DarwinX64,
    DarwinArm64,
    Win32X64,
}

/// The container in which a server build is shipped.
#[derive(Debug, Clone, Copy, PartialEq, Eq, Structural)]
pub enum ArchiveFormat {
    Zip,
    TarGz,
}

/// The platform that an operating system and architecture pair names, if it
/// is a supported one.
pub open spec fn platform_of_host(os: Seq<char>, arch: Seq<char>) -> Option<Platform> {
    if os == "linux"@ && arch == "x86_64"@ {
        Some(Platform::LinuxX64)
    } else if os == "linux"@ && arch == "aarch64"@ {
        Some(Platform::LinuxArm64)
    } else if os == "linux"@ && arch == "arm"@ {
        Some(Platform::LinuxArmhf)
    } else if os == "macos"@ && arch == "x86_64"@ {
        Some(Platform::DarwinX64)
    } else if os == "macos"@ && arch == "aarch64"@ {
        Some(Platform::DarwinArm64)
    } else if os == "windows"@ && arch == "x86_64"@ {
        Some(Platform::Win32X64)
    } else {
        None
    }
}

/// The platform that a target triple names, if it is a known one.
pub open spec fn platform_of_triple(target: Seq<char>) -> Option<Platform> {
    if target == "x86_64-unknown-linux-gnu"@ || target == "x86_64-unknown-linux-musl"@ {
        Some(Platform::LinuxX64)
    } else if target == "aarch64-unknown-linux-gnu"@ || target == "aarch64-unknown-linux-musl"@ {
        Some(Platform::LinuxArm64)
    } else if target == "armv7-unknown-linux-gnueabihf"@ {
        Some(Platform::LinuxArmhf)
    } else if target == "x86_64-apple-darwin"@ {
        Some(Platform::DarwinX64)
    } else if target == "aarch64-apple-darwin"@ {
        Some(Platform::DarwinArm64)
    } else if target == "x86_64-pc-windows-msvc"@ || target == "x86_64-pc-windows-gnu"@ {
        Some(Platform::Win32X64)
    } else {
        None
    }
}

impl Platform {
    /// The download flavor: the token in a download location that selects
    /// the build for this platform.
    pub open spec fn flavor(self) -> Seq<char> {
        match self {
            Platform::LinuxX64 => "server-linux-x64"@,
            Platform::LinuxArm64 => "server-linux-arm64"@,
            Platform::LinuxArmhf => "server-linux-armhf"@,
            Platform::DarwinX64 => "server-darwin-x64"@,
            Platform::DarwinArm64 => "server-darwin-arm64"@,
            Platform::Win32X64 => "server-win32-x64"@,
        }
    }

    /// The archive format of this platform's build.
    pub open spec fn format(self) -> ArchiveFormat {
        if self == Platform::Win32X64 {
            ArchiveFormat::Zip
        } else {
            ArchiveFormat::TarGz
        }
    }

    /// The release channel token of a download location.
    pub open spec fn channel(self) -> Seq<char> {
        if self.format() == ArchiveFormat::Zip {
            "archive"@
        } else {
            "stable"@
        }
    }

    /// The file name of the server's launcher below `bin`.
    pub open spec fn launcher(self) -> Seq<char> {
        if self == Platform::Win32X64 {
            "code-server.cmd"@
        } else {
            "code-server"@
        }
    }

    /// Resolves the platform of a host from the names of its operating
    /// system and architecture. A pair outside the supported set is refused
    /// with a text that names both.
    pub fn current(os: &str, arch: &str) -> (found: Result<Platform, String>)
        ensures
            match found {
                Ok(p) => platform_of_host(os@, arch@) == Some(p),
                Err(m) => platform_of_host(os@, arch@) is None && m@ == "Unsupported platform: "@
                    + os@ + " "@ + arch@,
            },
    {
        let linux = text_eq(os, "linux");
        let macos = text_eq(os, "macos");
        let windows = text_eq(os, "windows");
        let x64 = text_eq(arch, "x86_64");
        let arm64 = text_eq(arch, "aarch64");
        let arm = text_eq(arch, "arm");
        if linux && x64 {
            Ok(Platform::LinuxX64)
        } else if linux && arm64 {
            Ok(Platform::LinuxArm64)
        } else if linux && arm {
            Ok(Platform::LinuxArmhf)
        } else if macos && x64 {
            Ok(Platform::DarwinX64)
        } else if macos && arm64 {
            Ok(Platform::DarwinArm64)
        } else if windows && x64 {
            Ok(Platform::Win32X64)
        } else {
            let mut m = concat3("Unsupported platform: ", os, " ");
            m.append(arch);
            Err(m)
        }
    }

    /// The download flavor of this platform.
    pub fn server_flavor(&self) -> (s: &'static str)
        ensures
            s@ == self.flavor(),
    {
        match self {
            Platform::LinuxX64 => "server-linux-x64",
            Platform::LinuxArm64 => "server-linux-arm64",
            Platform::LinuxArmhf => "server-linux-armhf",
            Platform::DarwinX64 => "server-darwin-x64",
            Platform::DarwinArm64 => "server-darwin-arm64",
            Platform::Win32X64 => "server-win32-x64",
        }
    }

    /// The release channel token of this platform.
    pub fn url_suffix(&self) -> (s: &'static str)
        ensures
            s@ == self.channel(),
    {
        match self {
            Platform::Win32X64 => "archive",
            _ => "stable",
        }
    }

    /// Whether this platform's build is shipped as a zip archive.
    pub fn uses_zip(&self) -> (zip: bool)
        ensures
            zip == (self.format() == ArchiveFormat::Zip),
            zip == (*self == Platform::Win32X64),
    {
        matches!(self, Platform::Win32X64)
    }

    /// The archive format of this platform's build.
    pub fn archive_format(&self) -> (f: ArchiveFormat)
        ensures
            f == self.format(),
    {
        match self {
            Platform::Win32X64 => ArchiveFormat::Zip,
            _ => ArchiveFormat::TarGz,
        }
    }

    /// The file name of the server's launcher below `bin`.
    pub fn executable_name(&self) -> (s: &'static str)
        ensures
            s@ == self.launcher(),
    {
        match self {
            Platform::Win32X64 => "code-server.cmd",
            _ => "code-server",
        }
    }

    /// Resolves a platform from a target triple. Several triples of one
    /// architecture, differing in their C library, name the same platform.
    pub fn from_target_triple(target: &str) -> (found: Result<Platform, String>)
        ensures
            match found {
                Ok(p) => platform_of_triple(target@) == Some(p),
                Err(m) => platform_of_triple(target@) is None && m@ == "Unsupported target: "@
                    + target@,
            },
    {
        if text_eq(target, "x86_64-unknown-linux-gnu") || text_eq(
            target,
            "x86_64-unknown-linux-musl",
        ) {
            Ok(Platform::LinuxX64)
        } else if text_eq(target, "aarch64-unknown-linux-gnu") || text_eq(
            target,
            "aarch64-unknown-linux-musl",
        ) {
            Ok(Platform::LinuxArm64)
        } else if text_eq(target, "armv7-unknown-linux-gnueabihf") {
            Ok(Platform::LinuxArmhf)
        } else if text_eq(target, "x86_64-apple-darwin") {
            Ok(Platform::DarwinX64)
        } else if text_eq(target, "aarch64-apple-darwin") {
            Ok(Platform::DarwinArm64)
        } else if text_eq(target, "x86_64-pc-windows-msvc") || text_eq(
            target,
            "x86_64-pc-windows-gnu",
        ) {
            Ok(Platform::Win32X64)
        } else {
            Err(concat2("Unsupported target: ", target))
        }
    }

    /// The name under which this platform is shown: its download flavor.
    pub fn to_string(&self) -> (s: String)
        ensures
            s@ == self.flavor(),
    {
        String::from_str(self.server_flavor())
    }
}

/// Every platform ships in one of exactly two formats: the Windows build as
/// a zip archive, every other build as a gzip-compressed tar archive. The
/// release channel is "archive" for the zip build and "stable" for the
/// others, so two platforms share a channel exactly when they share a
/// format. No two platforms share a download flavor.
pub proof fn lemma_platform_naming(p: Platform, q: Platform)
    ensures
        p.format() == ArchiveFormat::Zip || p.format() == ArchiveFormat::TarGz,
        p.format() == ArchiveFormat::Zip <==> p == Platform::Win32X64,
        p.channel() == "archive"@ <==> p.format() == ArchiveFormat::Zip,
        p.channel() == "stable"@ <==> p.format() == ArchiveFormat::TarGz,
        p.channel() == q.channel() <==> p.format() == q.format(),
        p.flavor() == q.flavor() <==> p == q,
{
    reveal_strlit("archive");
    reveal_strlit("stable");
    reveal_strlit("server-linux-x64");
    reveal_strlit("server-linux-arm64");
    reveal_strlit("server-linux-armhf");
    reveal_strlit("server-darwin-x64");
    reveal_strlit("server-darwin-arm64");
    reveal_strlit("server-win32-x64");
    assert("archive"@[0] != "stable"@[0]);
    if p != q && p.flavor() == q.flavor() {
        let a = p.flavor();
        let b = q.flavor();
        assert(a.len() == b.len());
        assert(a[7] == b[7]);
        assert(a[16] == b[16]);
    }
}

} // verus!
