//! Player control channels: the shared error kind and the Win32 message
//! numbers the window-message channels are sent with.

use vstd::prelude::*;

verus! {

/// Why a control-channel operation failed. Callers decide on it:
/// `Unavailable` falls back to key presses, `AuthFailed` asks the user for
/// setup, `Protocol` is logged (the channel is up but this call failed).
#[derive(Debug)]
pub enum IpcError {
    /// The player is not running or its control interface is off.
    Unavailable,
    /// Authentication failed (the VLC HTTP password).
    AuthFailed,
    /// The channel answered, but not as expected.
    Protocol(String),
}

/// The text shown for an error.
pub open spec fn ipc_error_text(e: IpcError) -> Seq<char> {
    match e {
        IpcError::Unavailable => "播放器未运行或控制接口未开启"@,
        IpcError::AuthFailed => "认证失败（检查 VLC HTTP 密码）"@,
        IpcError::Protocol(m) => "协议错误："@ + m@,
    }
}

impl IpcError {
    /// Human-readable description of the error.
    pub fn message(&self) -> (r: String)
        ensures
            r@ == ipc_error_text(*self),
    {
        match self {
            IpcError::Unavailable => String::from_str("播放器未运行或控制接口未开启"),
            IpcError::AuthFailed => String::from_str("认证失败（检查 VLC HTTP 密码）"),
            IpcError::Protocol(m) => {
                let mut s = String::from_str("协议错误：");
                s.append(m.as_str());
                s
            },
        }
    }
}

/// Win32 `WM_COMMAND` (0x0111): triggers the command a menu item or hotkey would.
pub const WM_COMMAND: u32 = 0x0111;

/// Win32 `WM_USER` (0x0400): the message number of PotPlayer's SDK channel.
pub const WM_USER: u32 = 0x0400;

} // verus!
