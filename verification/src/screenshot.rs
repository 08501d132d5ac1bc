//! The screenshot orchestrator's decisions: destination resolution, the
//! timestamped file name, the file URL of the reply, the verdict on the
//! helper's exit, and the filesystem-event filter used while waiting for
//! the file to appear on disk.
//!
//! The surrounding process resolves the pictures directory, reads the
//! clock, launches the native helper and consumes the watch events; it
//! hands the observed values to the methods here, which take every
//! decision of the request.

use vstd::prelude::*;

use crate::ascii::four_digits;
use crate::ascii::four_digits_spec;
use crate::ascii::two_digits;
use crate::ascii::two_digits_spec;
use crate::error::ScreenshotError;

verus! {

/// A local clock reading, split into calendar fields.
#[derive(Clone, Copy, Debug, PartialEq, Eq, Structural)]
pub struct LocalTimestamp {
    pub year: u32,
    pub month: u32,
    pub day: u32,
    pub hour: u32,
    pub minute: u32,
    pub second: u32,
}

impl LocalTimestamp {
    /// Field ranges of a calendar clock reading.
    pub open spec fn wf(self) -> bool {
        self.year <= 9999 && 1 <= self.month <= 12 && 1 <= self.day <= 31 && self.hour <= 23
            && self.minute <= 59 && self.second <= 59
    }
}

/// The destination file name composed for a clock reading.
pub open spec fn file_name_spec(ts: LocalTimestamp) -> Seq<char> {
    "Screenshot_"@ + four_digits_spec(ts.year as int) + two_digits_spec(ts.month as int)
        + two_digits_spec(ts.day as int) + "_"@ + two_digits_spec(ts.hour as int) + two_digits_spec(
        ts.minute as int,
    ) + two_digits_spec(ts.second as int) + ".png"@
}

/// Composes the destination file name for a clock reading.
pub fn screenshot_file_name(ts: &LocalTimestamp) -> (r: String)
    requires
        ts.wf(),
    ensures
        r@ == file_name_spec(*ts),
{
    let mut name = String::from_str("Screenshot_");
    name.append(four_digits(ts.year).as_str());
    name.append(two_digits(ts.month).as_str());
    name.append(two_digits(ts.day).as_str());
    name.append("_");
    name.append(two_digits(ts.hour).as_str());
    name.append(two_digits(ts.minute).as_str());
    name.append(two_digits(ts.second).as_str());
    name.append(".png");
    proof {
        assert(name@ =~= file_name_spec(*ts));
    }
    name
}

/// The file URL that the url library renders for an absolute path.
pub uninterp spec fn file_url_of(path: Seq<char>) -> Seq<char>;

/// Relies on url::Url::from_file_path, with the URL rendered by
/// Url::as_str: on this platform it fails exactly for a path that is not
/// absolute, and the URL of an absolute path depends on the path alone.
#[verifier::external_body]
fn file_url_for(path: &String) -> (r: Option<String>)
    ensures
        path@.len() > 0 && path@[0] == '/' ==> r is Some,
        r matches Some(u) ==> u@ == file_url_of(path@),
        path@.len() == 0 || path@[0] != '/' ==> r is None,
{
    match url::Url::from_file_path(path.as_str()) {
        Ok(u) => Some(u.as_str().to_owned()),
        Err(_) => None,
    }
}

/// The composed destination of one screenshot request.
pub struct ScreenshotPlan {
    /// The timestamped file name the helper is expected to write.
    pub file_name: String,
    /// The destination path handed to the helper.
    pub path: String,
    /// The file URL of the destination, for the reply.
    pub url: String,
}

/// The screenshot orchestrator.
pub struct Screenshot {}

impl Screenshot {
    /// A screenshot orchestrator; it keeps no state across requests.
    pub fn new() -> (r: Screenshot) {
        Screenshot {  }
    }

    /// Composes where one screenshot is saved.  With no destination
    /// directory the request fails with NoDestinationDirectory; with one
    /// whose joined path is not absolute it fails with InvalidPath; and
    /// otherwise the plan carries the file name, the joined path and its
    /// file URL.
    pub fn plan(&self, pictures_dir: Option<String>, ts: &LocalTimestamp) -> (r: Result<
        ScreenshotPlan,
        ScreenshotError,
    >)
        requires
            ts.wf(),
        ensures
            pictures_dir is None ==> r == Err::<ScreenshotPlan, ScreenshotError>(
                ScreenshotError::NoDestinationDirectory,
            ),
            pictures_dir matches Some(dir) ==> ({
                let path = dir@ + "/"@ + file_name_spec(*ts);
                &&& (r is Ok <==> path.len() > 0 && path[0] == '/')
                &&& (r matches Ok(plan) ==> (plan.file_name@ == file_name_spec(*ts) && plan.path@
                    == path && plan.url@ == file_url_of(path)))
                &&& (r is Err ==> r == Err::<ScreenshotPlan, ScreenshotError>(
                    ScreenshotError::InvalidPath,
                ))
            }),
    {
        let dir = match pictures_dir {
            None => {
                return Err(ScreenshotError::NoDestinationDirectory);
            },
            Some(d) => d,
        };
        let ghost dir_view = dir@;
        let file_name = screenshot_file_name(ts);
        let path = dir.concat("/").concat(file_name.as_str());
        proof {
            assert(path@ =~= dir_view + "/"@ + file_name_spec(*ts));
        }
        match file_url_for(&path) {
            Some(url) => Ok(ScreenshotPlan { file_name, path, url }),
            None => Err(ScreenshotError::InvalidPath),
        }
    }

    /// The verdict once the native helper ran: a successful exit answers
    /// the request with the planned URL (the helper may still be saving
    /// when it exits); a launch failure or non-zero exit fails the request
    /// with HelperLaunchFailed, and nothing further is consulted.
    pub fn capture_outcome(&self, helper_exited_ok: bool, url: String) -> (r: Result<
        String,
        ScreenshotError,
    >)
        ensures
            helper_exited_ok ==> r == Ok::<String, ScreenshotError>(url),
            !helper_exited_ok ==> r == Err::<String, ScreenshotError>(
                ScreenshotError::HelperLaunchFailed,
            ),
    {
        if helper_exited_ok {
            Ok(url)
        } else {
            Err(ScreenshotError::HelperLaunchFailed)
        }
    }

    /// The filter on one filesystem event while waiting for the file:
    /// only a closed-after-write event whose name is exactly the composed
    /// file name confirms the screenshot on disk.
    pub fn watch_event_matches(
        &self,
        closed_after_write: bool,
        event_name: Option<&String>,
        expected_name: &String,
    ) -> (r: bool)
        ensures
            r == (event_name matches Some(n) && closed_after_write && n@ == expected_name@),
    {
        if !closed_after_write {
            return false;
        }
        match event_name {
            Some(n) => *n == *expected_name,
            None => false,
        }
    }

    /// Color picking is not implemented: every request is rejected as
    /// unsupported, whatever its input.
    pub fn pick_color(&self) -> (r: ScreenshotError)
        ensures
            r == ScreenshotError::Unsupported,
    {
        ScreenshotError::Unsupported
    }
}

} // verus!
