//! The paths a game version is installed to and started from.
use vstd::prelude::*;
use crate::utils::{replace_entries, replace_map};

verus! {

/// The table that fills in the version being installed: `[var.version.id]`.
pub open spec fn version_entries(version_id: Seq<char>) -> Seq<(Seq<char>, Seq<char>)> {
    seq![("var.version.id"@, version_id)]
}

/// Where the files of one game version go.
pub struct LaunchPaths {
    /// The version's own directory under the versions directory.
    pub version_dir: String,
    /// The directory of the version's libraries.
    pub libraries: String,
    /// The version's description file.
    pub json_file: String,
    /// The version's game archive.
    pub jar_file: String,
    /// The directory of the version's native binaries.
    pub bin: String,
}

/// Fills in the version id in one settings value.
fn for_version(value: &str, version_id: &str) -> (res: String)
    ensures
        res@ == replace_entries(value@, version_entries(version_id@)),
{
    let mut map: Vec<(String, String)> = Vec::new();
    map.push((String::from_str("var.version.id"), String::from_str(version_id)));
    assert(crate::utils::entries_view(map@) =~= version_entries(version_id@));
    replace_map(value, map)
}

/// The paths of version `version_id`, from the settings values of the versions directory,
/// the libraries directory, the description file, the game archive and the binaries
/// directory: the version directory is `versions_path/version_id`, and the others are the
/// settings values with `[var.version.id]` filled in.
pub fn launch_paths(
    version_id: &str,
    versions_path: &str,
    libs_dir: &str,
    versions_json_file: &str,
    versions_jar_file: &str,
    versions_bin: &str,
) -> (res: LaunchPaths)
    ensures
        res.version_dir@ == versions_path@ + "/"@ + version_id@,
        res.libraries@ == replace_entries(libs_dir@, version_entries(version_id@)),
        res.json_file@ == replace_entries(versions_json_file@, version_entries(version_id@)),
        res.jar_file@ == replace_entries(versions_jar_file@, version_entries(version_id@)),
        res.bin@ == replace_entries(versions_bin@, version_entries(version_id@)),
{
    let mut version_dir = String::new();
    version_dir.append(versions_path);
    version_dir.append("/");
    version_dir.append(version_id);
    LaunchPaths {
        version_dir,
        libraries: for_version(libs_dir, version_id),
        json_file: for_version(versions_json_file, version_id),
        jar_file: for_version(versions_jar_file, version_id),
        bin: for_version(versions_bin, version_id),
    }
}

/// The steps of installing and starting a version, in order.
#[derive(PartialEq, Eq, Structural, Debug, Clone, Copy)]
pub enum InstallStage {
    CheckingManifest,
    ClientJson,
    Java,
    Jar,
    Assets,
    Libraries,
    Running,
}

/// The text the progress bar shows during a step.
pub open spec fn stage_text(stage: InstallStage) -> Seq<char> {
    match stage {
        InstallStage::CheckingManifest => " :Checking manifest"@,
        InstallStage::ClientJson => " :client.json 1/5"@,
        InstallStage::Java => " :java 2/5"@,
        InstallStage::Jar => " :jar 3/5"@,
        InstallStage::Assets => " :assets 4/5"@,
        InstallStage::Libraries => " :libraries 5/5"@,
        InstallStage::Running => " :Running"@,
    }
}

/// The progress on entering a step, from the progress before it: checking the manifest and
/// running start from 0, the four steps after the manifest each add 25, and the libraries
/// step keeps what the asset download reported.
pub open spec fn stage_progress_spec(stage: InstallStage, progress: u16) -> int {
    match stage {
        InstallStage::CheckingManifest => 0,
        InstallStage::Running => 0,
        InstallStage::Libraries => progress as int,
        _ => progress + 25,
    }
}

/// The text the progress bar shows during `stage`.
pub fn stage_label(stage: InstallStage) -> (res: &'static str)
    ensures
        res@ == stage_text(stage),
{
    match stage {
        InstallStage::CheckingManifest => " :Checking manifest",
        InstallStage::ClientJson => " :client.json 1/5",
        InstallStage::Java => " :java 2/5",
        InstallStage::Jar => " :jar 3/5",
        InstallStage::Assets => " :assets 4/5",
        InstallStage::Libraries => " :libraries 5/5",
        InstallStage::Running => " :Running",
    }
}

/// The progress on entering `stage` when the bar stood at `progress`.
pub fn stage_progress(stage: InstallStage, progress: u16) -> (res: u16)
    requires
        stage_progress_spec(stage, progress) <= u16::MAX,
    ensures
        res == stage_progress_spec(stage, progress),
{
    match stage {
        InstallStage::CheckingManifest => 0,
        InstallStage::Running => 0,
        InstallStage::Libraries => progress,
        _ => progress + 25,
    }
}

/// Going through the four steps after the manifest from 0 brings the bar to 100.
pub proof fn law_stages_reach_full()
    ensures
        stage_progress_spec(InstallStage::Assets, stage_progress_spec(InstallStage::Jar,
            stage_progress_spec(InstallStage::Java, stage_progress_spec(InstallStage::ClientJson,
            stage_progress_spec(InstallStage::CheckingManifest, 0) as u16) as u16) as u16) as u16) == 100,
{
}

} // verus!
