//! The embedded web payload and the literal names the native API is given.
//!
//! The document, its inline script, and the script injected on document
//! creation are the entire visible application content; their text is part of
//! the system's behavior and is kept verbatim.

use vstd::prelude::*;

verus! {

/// The script run on every document creation: it forwards any mouse-down to
/// the host as the literal web message `drag` and suppresses the event.
pub open spec fn spec_drag_forward_script() -> Seq<char> {
    r"document.addEventListener('mousedown', evt => {
                const { target } = evt;
                const appRegion = getComputedStyle(target)['-webkit-app-region'];
        
                //if (appRegion === 'drag') {
                    //chrome.webview.hostObjects.sync.eventForwarder.MouseDownDrag();
                    window.chrome.webview.postMessage('drag');
                    evt.preventDefault();
                    evt.stopPropagation();
                //}
            });
            
            
            // document.addEventListener('mousedown', function (event)
            // {
            //     let jsonObject =
            //     {
            //         Key: 'mousedown',
            //         Value:
            //         {
            //             X: event.screenX,
            //             Y: event.screenY
            //         }
            //     };
            //    window.chrome.webview.postMessage(JSON.stringify(jsonObject));
            //}
            "@
}

/// The script handed to the browser surface at bootstrap.
pub fn drag_forward_script() -> (r: &'static str)
    ensures
        r@ == spec_drag_forward_script(),
{
    r"document.addEventListener('mousedown', evt => {
                const { target } = evt;
                const appRegion = getComputedStyle(target)['-webkit-app-region'];
        
                //if (appRegion === 'drag') {
                    //chrome.webview.hostObjects.sync.eventForwarder.MouseDownDrag();
                    window.chrome.webview.postMessage('drag');
                    evt.preventDefault();
                    evt.stopPropagation();
                //}
            });
            
            
            // document.addEventListener('mousedown', function (event)
            // {
            //     let jsonObject =
            //     {
            //         Key: 'mousedown',
            //         Value:
            //         {
            //             X: event.screenX,
            //             Y: event.screenY
            //         }
            //     };
            //    window.chrome.webview.postMessage(JSON.stringify(jsonObject));
            //}
            "
}

/// The fixed document loaded into the browser surface by direct content
/// injection: a drag-region heading, static body text, and an inline script
/// that posts `drag` to the host when a press lands on the drag region.
pub open spec fn spec_html_payload() -> Seq<char> {
    r#"
<!doctype html>
<html>
<head>
<title>Demo</title>
<style>
    h2 {
        --webkit-app-region: drag;
    }
</style>
</head>
<body>
    <h1> Die Ãœberschrift</h1>
    <h2> Hier Fenster ziehen</h2>
    <p>Das ist der Inhalt</p>

    <script>
    console.log('Affe')
    document.body.addEventListener('mousedown', evt => {
        const { target } = evt;
        const appRegion = getComputedStyle(target)['-webkit-app-region'];

        if (appRegion === 'drag') {
            //chrome.webview.hostObjects.sync.eventForwarder.MouseDownDrag();
            window.chrome.webview.postMessage('drag');
            evt.preventDefault();
            evt.stopPropagation();
        }
    });    
    </script>
</body>
</html>
"#@
}

/// The document handed to the browser surface at bootstrap.
pub fn html_payload() -> (r: &'static str)
    ensures
        r@ == spec_html_payload(),
{
    r#"
<!doctype html>
<html>
<head>
<title>Demo</title>
<style>
    h2 {
        --webkit-app-region: drag;
    }
</style>
</head>
<body>
    <h1> Die Ãœberschrift</h1>
    <h2> Hier Fenster ziehen</h2>
    <p>Das ist der Inhalt</p>

    <script>
    console.log('Affe')
    document.body.addEventListener('mousedown', evt => {
        const { target } = evt;
        const appRegion = getComputedStyle(target)['-webkit-app-region'];

        if (appRegion === 'drag') {
            //chrome.webview.hostObjects.sync.eventForwarder.MouseDownDrag();
            window.chrome.webview.postMessage('drag');
            evt.preventDefault();
            evt.stopPropagation();
        }
    });    
    </script>
</body>
</html>
"#
}

/// The window class name of the main frame.
pub fn main_class_name() -> (r: &'static str)
    ensures
        r@ == "WebView2 Win32 Class"@,
{
    "WebView2 Win32 Class"
}

/// The window class name of the caption child.
pub fn child_class_name() -> (r: &'static str)
    ensures
        r@ == "Caption Win32 Class"@,
{
    "Caption Win32 Class"
}

/// The title text both windows are created with.
pub fn window_title() -> (r: &'static str)
    ensures
        r@ == "WebView2 - Win 32"@,
{
    "WebView2 - Win 32"
}

} // verus!
