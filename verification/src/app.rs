//! The application: its state, and what the interface is told of it.
use vstd::prelude::*;

use crate::app_lib::AppLib;
use crate::navigator::{Navigator, NavigatorView};
use crate::utility::{joined_halves, u64_to_i32x2};

verus! {

/// The application.
pub struct App {
    pub app_lib: AppLib,
    pub navigator: Navigator,
}

/// What the interface shows of who is logged in.
#[derive(Clone, Copy, Debug)]
pub struct LoginStatus {
    pub logined: bool,
    /// The halves of the identifier of who is logged in.
    pub login_id: Option<(i32, i32)>,
}

impl App {
    pub fn new(app_lib: AppLib) -> (app: App)
        ensures
            app.app_lib == app_lib,
            app.navigator@ == (NavigatorView { entries: seq![None], cursor: 0 }),
    {
        App { app_lib, navigator: Navigator::new() }
    }

    /// Tells who is logged in.
    pub fn load_app_status(&self) -> (status: LoginStatus)
        ensures
            status.logined == self.app_lib.login_user is Some,
            match self.app_lib.login_user {
                Some(user) => {
                    &&& status.login_id is Some
                    &&& joined_halves((status.login_id->0).0, (status.login_id->0).1) == user.id
                },
                None => status.login_id is None,
            },
    {
        match &self.app_lib.login_user {
            Some(user) => LoginStatus { logined: true, login_id: Some(u64_to_i32x2(user.id)) },
            None => LoginStatus { logined: false, login_id: None },
        }
    }
}

} // verus!
