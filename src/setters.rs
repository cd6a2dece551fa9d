use vstd::prelude::*;
use crate::catalog::texts;

verus! {

/// The desktop family whose setter program applies a wallpaper.
#[derive(Debug, Clone, Copy, PartialEq, Eq, Structural)]
pub enum Platform {
    Wayland,
    X11,
}

/// Why an operation of the picker failed.
#[derive(Debug, Clone, Copy, PartialEq, Eq, Structural)]
pub enum WallpaperError {
    /// The directory or the setter program does not exist.
    NotFound,
    /// The directory cannot be read.
    AccessDenied,
    /// Another failure to read or to start a process.
    Io,
    /// A random image was asked of a catalog with no image.
    EmptyCatalog,
}

/// A process to start: the program and its arguments.
#[derive(Debug)]
pub struct SetterCommand {
    pub program: String,
    pub args: Vec<String>,
}

/// The program that sets the background on `platform`.
pub open spec fn program_of(platform: Platform) -> Seq<char> {
    match platform {
        Platform::Wayland => "swww"@,
        Platform::X11 => "feh"@,
    }
}

/// The arguments that make the setter show the image at `path`: a ten-step
/// transition under Wayland, a scaled background under X11.
pub open spec fn args_of(path: Seq<char>, platform: Platform) -> Seq<Seq<char>> {
    match platform {
        Platform::Wayland => seq!["img"@, path, "--transition-step"@, "10"@],
        Platform::X11 => seq!["--bg-scale"@, path],
    }
}

/// `cmd` is the setter invocation for the image at `path` on `platform`.
pub open spec fn applies(cmd: SetterCommand, path: Seq<char>, platform: Platform) -> bool {
    &&& cmd.program@ == program_of(platform)
    &&& texts(cmd.args@) == args_of(path, platform)
}

/// The name of the setter program for `platform`.
pub fn setter_program(platform: Platform) -> (r: String)
    ensures
        r@ == program_of(platform),
{
    match platform {
        Platform::Wayland => String::from_str("swww"),
        Platform::X11 => String::from_str("feh"),
    }
}

/// The command that applies the image at `path` as the background.
pub fn set_wallpaper(path: &str, platform: Platform) -> (r: SetterCommand)
    ensures
        applies(r, path@, platform),
{
    let program = setter_program(platform);
    let mut args: Vec<String> = Vec::new();
    match platform {
        Platform::Wayland => {
            args.push(String::from_str("img"));
            args.push(String::from_str(path));
            args.push(String::from_str("--transition-step"));
            args.push(String::from_str("10"));
        },
        Platform::X11 => {
            args.push(String::from_str("--bg-scale"));
            args.push(String::from_str(path));
        },
    }
    assert(texts(args@) == args_of(path@, platform));
    SetterCommand { program, args }
}

/// Relies on rand::thread_rng and rand::Rng::gen_range: a value drawn from
/// `0..len`, which must not be empty (gen_range panics on an empty range).
#[verifier::external_body]
pub(crate) fn random_index(len: usize) -> (r: usize)
    requires
        len > 0,
    ensures
        r < len,
{
    rand::Rng::gen_range(&mut rand::thread_rng(), 0..len)
}

/// The command that applies the image at index `idx` of `paths`.
pub fn command_at(paths: &Vec<String>, idx: usize, platform: Platform) -> (r: SetterCommand)
    requires
        idx < paths.len(),
    ensures
        applies(r, paths@[idx as int]@, platform),
{
    set_wallpaper(paths[idx].as_str(), platform)
}

/// Draws an image of `paths` at random and gives the command that applies it
/// with the index drawn; fails with `EmptyCatalog` when there is no image.
pub fn set_random_wallpaper(paths: &Vec<String>, platform: Platform) -> (r: Result<
    (usize, SetterCommand),
    WallpaperError,
>)
    ensures
        paths.len() == 0 <==> r == Err::<(usize, SetterCommand), _>(WallpaperError::EmptyCatalog),
        paths.len() > 0 ==> r is Ok,
        r is Ok ==> {
            let (i, cmd) = r->Ok_0;
            i < paths.len() && applies(cmd, paths@[i as int]@, platform)
        },
{
    if paths.len() == 0 {
        return Err(WallpaperError::EmptyCatalog);
    }
    let i = random_index(paths.len());
    Ok((i, command_at(paths, i, platform)))
}

} // verus!
