use inkscape_manager::clipboard::Clipboard;
use inkscape_manager::clipboard::PublishError;

/// A stand-in for the external clipboard utility.
struct FlakyClipboard {
    fail: bool,
}

impl Clipboard for FlakyClipboard {
    fn to_clipboard(&self, target: Option<&str>) -> Result<(), PublishError> {
        assert_eq!(target, Some("image/x-inkscape-svg"));
        if self.fail {
            Err(PublishError)
        } else {
            Ok(())
        }
    }
}

#[test]
fn publish_interface_reports_success_and_failure() {
    let good = FlakyClipboard { fail: false };
    assert!(good.to_clipboard(Some("image/x-inkscape-svg")).is_ok());

    let bad = FlakyClipboard { fail: true };
    assert_eq!(bad.to_clipboard(Some("image/x-inkscape-svg")), Err(PublishError));
}
