//! The options that select what is displayed.

use vstd::prelude::*;

verus! {

/// All the options that configure the information displayed to the user.
#[derive(Clone, Copy, Debug, PartialEq, Eq, Structural)]
pub struct Config {
    /// If true and the program can identify the current distro, it will display a graphic.
    /// Otherwise it will show nothing. Defaults to true
    pub show_distro: bool,

    /// If true, show OS information if possible. Defaults to true
    pub show_os: bool,

    /// If true, shows the host of the machine, i.e. motherboard
    pub show_host: bool,

    /// If true, show the kernel version. Defaults to true
    pub show_kernel: bool,

    /// If true, show the uptime in hours and minutes. Defaults to true
    pub show_uptime: bool,

    /// If true, show the number of packages and what package managers. Defaults to true
    pub show_packages: bool,

    /// If true, show the shell. Defaults to true
    pub show_shell: bool,

    /// If true, show the screen resolution(s). Defaults to true
    pub show_resolution: bool,

    /// If true, show the desktop environment. Defaults to true
    pub show_de: bool,

    /// If true, show the window manager. Defaults to true
    pub show_wm: bool,

    /// If true, show the window manager's theme. Defaults to true
    pub show_wm_theme: bool,

    /// If true, show the theme. Defaults to true
    pub show_theme: bool,

    /// If true, show the icon set. Defaults to true
    pub show_icons: bool,

    /// If true, show the terminal. Defaults to true
    pub show_terminal: bool,

    /// If true, show the terminal's font. Defaults to true
    pub show_terminal_font: bool,

    /// If true, show the cpu. Defaults to true
    pub show_cpu: bool,

    /// If true, show the GPU(s). Defaults to true
    pub show_gpu: bool,

    /// If true, show the memory (used / total). Defaults to true
    pub show_memory: bool,

    /// If true, show the CPU usage. Defaults to false
    pub show_cpu_usage: bool,

    /// If true, show the disk usage. Defaults to false
    pub show_disk_usage: bool,

    /// If true, show the battery usage. Defaults to false
    pub show_battery: bool,

    /// If true, show the font. Defaults to false
    pub show_font: bool,

    /// If true, show the song playing. Defaults to false
    pub show_song: bool,

    /// If true, show the local IP. Defaults to false
    pub show_local_ip: bool,

    /// If true, show the public IP. Defaults to false
    pub show_public_ip: bool,

    /// If true, show the users. Defaults to false
    pub show_users: bool,

    /// If true, show the current user's birthday. Defaults to false
    pub show_birthday: bool,

    /// If true, show the terminal colors. Defaults to true
    pub show_colors: bool,
}

/// The configuration used when none was stored.
pub open spec fn default_config() -> Config {
    Config {
        show_distro: true,
        show_os: true,
        show_host: true,
        show_kernel: true,
        show_uptime: true,
        show_packages: true,
        show_shell: true,
        show_resolution: true,
        show_de: true,
        show_wm: true,
        show_wm_theme: true,
        show_theme: true,
        show_icons: true,
        show_terminal: true,
        show_terminal_font: true,
        show_cpu: true,
        show_gpu: true,
        show_memory: true,
        show_cpu_usage: false,
        show_disk_usage: false,
        show_battery: false,
        show_font: false,
        show_song: false,
        show_local_ip: false,
        show_public_ip: false,
        show_users: false,
        show_birthday: false,
        show_colors: true,
    }
}

/// Every toggle is off.
pub open spec fn all_off(c: Config) -> bool {
    &&& !c.show_distro
    &&& !c.show_os
    &&& !c.show_host
    &&& !c.show_kernel
    &&& !c.show_uptime
    &&& !c.show_packages
    &&& !c.show_shell
    &&& !c.show_resolution
    &&& !c.show_de
    &&& !c.show_wm
    &&& !c.show_wm_theme
    &&& !c.show_theme
    &&& !c.show_icons
    &&& !c.show_terminal
    &&& !c.show_terminal_font
    &&& !c.show_cpu
    &&& !c.show_gpu
    &&& !c.show_memory
    &&& !c.show_cpu_usage
    &&& !c.show_disk_usage
    &&& !c.show_battery
    &&& !c.show_font
    &&& !c.show_song
    &&& !c.show_local_ip
    &&& !c.show_public_ip
    &&& !c.show_users
    &&& !c.show_birthday
    &&& !c.show_colors
}

impl Default for Config {
    fn default() -> (r: Self)
        ensures
            r == default_config(),
    {
        Self {
            show_distro: true,
            show_os: true,
            show_host: true,
            show_kernel: true,
            show_uptime: true,
            show_packages: true,
            show_shell: true,
            show_resolution: true,
            show_de: true,
            show_wm: true,
            show_wm_theme: true,
            show_theme: true,
            show_icons: true,
            show_terminal: true,
            show_terminal_font: true,
            show_cpu: true,
            show_gpu: true,
            show_memory: true,
            show_cpu_usage: false,
            show_disk_usage: false,
            show_battery: false,
            show_font: false,
            show_song: false,
            show_local_ip: false,
            show_public_ip: false,
            show_users: false,
            show_birthday: false,
            show_colors: true,
        }
    }
}

/// The configuration in effect: the stored one where it could be read and
/// parsed, otherwise the default.
pub fn load_config(stored: Option<Config>) -> (cfg: Config)
    ensures
        cfg == match stored {
            Some(c) => c,
            None => default_config(),
        },
{
    match stored {
        Some(c) => c,
        None => Config::default(),
    }
}

} // verus!
