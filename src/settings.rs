use vstd::prelude::*;

verus! {

/// The character sequences held by a list of strings.
pub open spec fn string_views(v: Seq<String>) -> Seq<Seq<char>> {
    v.map_values(|s: String| s@)
}

/// Where the settings document is looked for when no location is given.
pub fn default_settings() -> (r: String)
    ensures
        r@ == "settings.toml"@,
{
    "settings.toml".to_string()
}

/// The whole configuration of one run. It is loaded once and only read afterwards.
#[derive(Clone, Debug)]
pub struct Settings {
    pub debug: bool,
    pub server: ServerSoftwareSettings,
    pub clean: CleanSettings,
    pub plugins: Vec<PluginSettings>,
    pub iris: IrisSettings,
}

/// The server binary: where it lives, where it comes from and how it is run.
#[derive(Clone, Debug)]
pub struct ServerSoftwareSettings {
    /// File name of the binary, relative to the working directory.
    pub name: String,
    /// Pattern that names a server binary when its exact file name is not known.
    pub regex: String,
    pub download_url: String,
    /// Seconds to wait after the server stopped before it is started again.
    pub reboot_delay: u32,
    /// Runtime flags put before the binary on the command line.
    pub flags: Vec<String>,
}

/// What is removed by a cleanup, and when.
#[derive(Clone, Debug)]
pub struct CleanSettings {
    pub enabled: bool,
    /// Also clean between two runs of the server.
    pub also_on_reboot: bool,
    pub folders: Vec<String>,
    pub files: Vec<String>,
}

/// One downloaded plugin.
#[derive(Clone, Debug)]
pub struct PluginSettings {
    pub name: String,
    pub enabled: bool,
    pub download_url: String,
}

/// The plugin that is built from its source repository.
#[derive(Clone, Debug)]
pub struct IrisSettings {
    pub name: String,
    pub enabled: bool,
    pub repo_url: String,
    pub repo_branch: String,
    pub repo_path: String,
}

pub open spec fn default_server_flags() -> Seq<Seq<char>> {
    seq!["-Xmx4G"@, "-Xms4G"@]
}

pub open spec fn default_clean_folders() -> Seq<Seq<char>> {
    seq![
        "./crash-reports"@, "./logs"@, "./config"@, "./iris"@, "./w"@, "./v"@, "./x"@,
        "./y"@, "./z"@, "./k"@, "./l"@, "./o"@, "./world/advancements"@, "./world/data"@,
        "./world/entities"@, "./world/playerdata"@, "./world/poi"@, "./world/region"@,
        "./world/stats"@, "./world_nether"@, "./world_the_end"@, "./versions"@,
    ]
}

pub open spec fn default_clean_files() -> Seq<Seq<char>> {
    seq![
        "version_history.json"@, ".console_history"@, "banned-ips.json"@,
        "banned-players.json"@, "commands.yml"@, "help.yml"@, "permissions.yml"@,
        "wepif.yml"@, "whitelist.json"@, "usercache.json"@, "./world/level.dat"@,
        "./world/level.dat_old"@, "./world/session.lock"@, "./world/uid.dat"@,
        "pufferfish.yml"@, "purpur.yml"@, "spigot.yml"@,
    ]
}

/// The default plugins as (name, download location); all of them are enabled.
pub open spec fn default_plugins() -> Seq<(Seq<char>, Seq<char>)> {
    seq![
        ("EssentialsX"@, "https://ci.ender.zone/job/EssentialsX/lastSuccessfulBuild/artifact/jars/EssentialsX-2.20.0-dev+40-996285c.jar"@),
        ("WorldEdit"@, "https://mediafilez.forgecdn.net/files/4162/203/worldedit-bukkit-7.2.13.jar"@),
        ("BileTools"@, "https://github.com/VolmitSoftware/BileTools/releases/download/2/BileTools-2.jar"@),
        ("ViaVersion"@, "https://github.com/ViaVersion/ViaVersion/releases/download/4.5.1/ViaVersion-4.5.1.jar"@),
        ("ViaBackwards"@, "https://github.com/ViaVersion/ViaBackwards/releases/download/4.5.1/ViaBackwards-4.5.1.jar"@),
        ("ViaRewind"@, "https://ci.viaversion.com/view/ViaRewind/job/ViaRewind/lastSuccessfulBuild/artifact/all/target/ViaRewind-2.0.3-SNAPSHOT.jar"@),
    ]
}

/// The settings written out when no settings document exists yet.
pub open spec fn is_default_settings(s: Settings) -> bool {
    &&& !s.debug
    &&& s.server.name@ == "purpur.jar"@
    &&& s.server.regex@ == "purpur.*\\.jar"@
    &&& s.server.download_url@ == "https://api.purpurmc.org/v2/purpur/1.19.3/latest/download"@
    &&& s.server.reboot_delay == 5
    &&& string_views(s.server.flags@) == default_server_flags()
    &&& !s.clean.enabled
    &&& !s.clean.also_on_reboot
    &&& string_views(s.clean.folders@) == default_clean_folders()
    &&& string_views(s.clean.files@) == default_clean_files()
    &&& s.plugins@.len() == default_plugins().len()
    &&& forall|i: int|
        0 <= i < s.plugins@.len() ==> {
            &&& s.plugins@[i].enabled
            &&& (#[trigger] s.plugins@[i]).name@ == default_plugins()[i].0
            &&& s.plugins@[i].download_url@ == default_plugins()[i].1
        }
    &&& s.iris.enabled
    &&& s.iris.name@ == "Iris"@
    &&& s.iris.repo_url@ == "https://github.com/VolmitSoftware/Iris.git"@
    &&& s.iris.repo_branch@ == "master"@
    &&& s.iris.repo_path@ == "plugins/Iris/Iris"@
}

fn plugin(name: &str, download_url: &str) -> (r: PluginSettings)
    ensures
        r.name@ == name@,
        r.download_url@ == download_url@,
        r.enabled,
{
    PluginSettings { name: name.to_string(), enabled: true, download_url: download_url.to_string() }
}

/// Builds the default settings.
pub fn generate_default_settings() -> (r: Settings)
    ensures
        is_default_settings(r),
{
    let server = ServerSoftwareSettings {
        name: "purpur.jar".to_string(),
        regex: "purpur.*\\.jar".to_string(),
        download_url: "https://api.purpurmc.org/v2/purpur/1.19.3/latest/download".to_string(),
        reboot_delay: 5,
        flags: vec!["-Xmx4G".to_string(), "-Xms4G".to_string()],
    };
    assert(string_views(server.flags@) =~= default_server_flags());
    let folders = vec![
        "./crash-reports".to_string(), "./logs".to_string(), "./config".to_string(),
        "./iris".to_string(), "./w".to_string(), "./v".to_string(), "./x".to_string(),
        "./y".to_string(), "./z".to_string(), "./k".to_string(), "./l".to_string(),
        "./o".to_string(), "./world/advancements".to_string(), "./world/data".to_string(),
        "./world/entities".to_string(), "./world/playerdata".to_string(),
        "./world/poi".to_string(), "./world/region".to_string(), "./world/stats".to_string(),
        "./world_nether".to_string(), "./world_the_end".to_string(), "./versions".to_string(),
    ];
    assert(string_views(folders@) =~= default_clean_folders());
    let files = vec![
        "version_history.json".to_string(), ".console_history".to_string(),
        "banned-ips.json".to_string(), "banned-players.json".to_string(),
        "commands.yml".to_string(), "help.yml".to_string(), "permissions.yml".to_string(),
        "wepif.yml".to_string(), "whitelist.json".to_string(), "usercache.json".to_string(),
        "./world/level.dat".to_string(), "./world/level.dat_old".to_string(),
        "./world/session.lock".to_string(), "./world/uid.dat".to_string(),
        "pufferfish.yml".to_string(), "purpur.yml".to_string(), "spigot.yml".to_string(),
    ];
    assert(string_views(files@) =~= default_clean_files());
    let plugins = vec![
        plugin("EssentialsX", "https://ci.ender.zone/job/EssentialsX/lastSuccessfulBuild/artifact/jars/EssentialsX-2.20.0-dev+40-996285c.jar"),
        plugin("WorldEdit", "https://mediafilez.forgecdn.net/files/4162/203/worldedit-bukkit-7.2.13.jar"),
        plugin("BileTools", "https://github.com/VolmitSoftware/BileTools/releases/download/2/BileTools-2.jar"),
        plugin("ViaVersion", "https://github.com/ViaVersion/ViaVersion/releases/download/4.5.1/ViaVersion-4.5.1.jar"),
        plugin("ViaBackwards", "https://github.com/ViaVersion/ViaBackwards/releases/download/4.5.1/ViaBackwards-4.5.1.jar"),
        plugin("ViaRewind", "https://ci.viaversion.com/view/ViaRewind/job/ViaRewind/lastSuccessfulBuild/artifact/all/target/ViaRewind-2.0.3-SNAPSHOT.jar"),
    ];
    let iris = IrisSettings {
        enabled: true,
        name: "Iris".to_string(),
        repo_url: "https://github.com/VolmitSoftware/Iris.git".to_string(),
        repo_branch: "master".to_string(),
        repo_path: "plugins/Iris/Iris".to_string(),
    };
    Settings {
        debug: false,
        server,
        clean: CleanSettings { enabled: false, also_on_reboot: false, folders, files },
        plugins,
        iris,
    }
}

} // verus!
