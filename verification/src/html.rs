use vstd::prelude::*;

use crate::captcha::CaptchaJob;
use crate::escape::escape_html;
use crate::escape::escape_js;
use crate::escape::html_escaped;
use crate::escape::js_escaped;
use crate::strutil::str_eq;

verus! {

/// The widget script for an hCaptcha challenge.
pub const HCAPTCHA_SCRIPT: &'static str = "https://hcaptcha.com/1/api.js?render=explicit&onload=onCaptchaLoad";

/// The widget script for an enterprise reCAPTCHA challenge.
pub const RECAPTCHA_ENTERPRISE_SCRIPT: &'static str = "https://www.google.com/recaptcha/enterprise.js?render=explicit&onload=onCaptchaLoad";

/// The widget script for an ordinary reCAPTCHA challenge.
pub const RECAPTCHA_SCRIPT: &'static str = "https://www.google.com/recaptcha/api.js?render=explicit&onload=onCaptchaLoad";

/// The button shown for an invisible-style site key, which must be clicked
/// to trigger the challenge.
pub const INVISIBLE_BUTTON: &'static str = r#"<button id="submit-btn" class="invisible-btn" onclick="executeCaptcha()">I'm not a robot</button>"#;

/// The challenge page, split at each interpolated value.
pub const HTML_MAIN_0: &'static str = r#"<!DOCTYPE html>
<html>
<head>
    <meta charset="UTF-8">
    <meta name="viewport" content="width=device-width, initial-scale=1.0">
    <meta http-equiv="Content-Security-Policy" content="default-src 'self' 'unsafe-inline' 'unsafe-eval' https://www.google.com https://www.gstatic.com https://hcaptcha.com https://*.hcaptcha.com">
    <title>CAPTCHA - "#;

pub const HTML_MAIN_1: &'static str = r#"</title>
    <style>
        * { box-sizing: border-box; }
        body { 
            font-family: -apple-system, BlinkMacSystemFont, 'Segoe UI', Roboto, sans-serif; 
            margin: 0; 
            padding: 20px; 
            background: linear-gradient(135deg, #1a1a2e 0%, #16213e 100%); 
            color: white; 
            min-height: 100vh;
            display: flex;
            flex-direction: column;
            align-items: center;
        }
        .container { max-width: 500px; width: 100%; }
        .header { text-align: center; margin-bottom: 30px; }
        .header h1 { margin: 0 0 10px 0; font-size: 24px; }
        .hoster { color: #eebb1b; font-weight: bold; font-size: 16px; }
        .captcha-box { 
            background: white; 
            border-radius: 8px; 
            padding: 20px; 
            margin: 20px 0;
            display: flex;
            justify-content: center;
            min-height: 100px;
        }
        .invisible-btn {
            background: #4285f4;
            color: white;
            border: none;
            padding: 15px 30px;
            font-size: 16px;
            border-radius: 4px;
            cursor: pointer;
            margin: 10px 0;
        }
        .invisible-btn:hover { background: #3367d6; }
        .buttons { 
            display: flex; 
            justify-content: space-between; 
            flex-wrap: wrap;
            gap: 10px;
            margin-top: 20px; 
            padding: 15px; 
            background: rgba(255,255,255,0.1); 
            border-radius: 8px; 
        }
        .btn { 
            padding: 10px 15px; 
            border: none; 
            border-radius: 4px; 
            cursor: pointer; 
            font-size: 13px;
            transition: opacity 0.2s;
        }
        .btn:hover { opacity: 0.8; }
        .btn-skip { background: #e94560; color: white; }
        .btn-cancel { background: #666; color: white; }
        .status { margin-top: 20px; padding: 10px; text-align: center; }
        .hidden { display: none; }
        .error { color: #f44336; background: #ffebee; padding: 10px; border-radius: 4px; margin: 10px 0; }
        .loading { color: #4fc3f7; }
    </style>
</head>
<body>
    <div class="container">
        <div class="header">
            <h1>CAPTCHA Verification</h1>
            <p>Please solve to continue downloads with:</p>
            <p class="hoster">"#;

pub const HTML_MAIN_2: &'static str = r#"</p>
        </div>
        <div class="captcha-box" id="captcha-box">
            <div id="captcha-widget" class=""#;

pub const HTML_MAIN_3: &'static str = r#"" data-sitekey=""#;

pub const HTML_MAIN_4: &'static str = r#"" data-callback="onResponse" data-size=""#;

pub const HTML_MAIN_5: &'static str = r#""></div>
        </div>
        <div id="loading" class="loading">Loading CAPTCHA...</div>
        "#;

pub const HTML_MAIN_6: &'static str = r#"
        <div class="buttons" id="buttons">
            <div>
                <button class="btn btn-skip" onclick="skip('hoster')">Skip Hoster</button>
                <button class="btn btn-skip" onclick="skip('package')">Skip Package</button>
                <button class="btn btn-skip" onclick="skip('all')">Skip All</button>
            </div>
            <button class="btn btn-cancel" onclick="skip('single')">Cancel</button>
        </div>
        <div class="status hidden" id="status">Submitting...</div>
    </div>
    <script>
        const RENDER_NS = ""#;

pub const HTML_MAIN_7: &'static str = r#"";
        const VERSION = ""#;

pub const HTML_MAIN_8: &'static str = r#"";
        
        window.onerror = function(msg, url, line, col, error) {
            console.error('JS Error:', msg, url, line, col, error);
            document.getElementById('loading').innerHTML = '<div class="error">Error: ' + msg + '</div>';
        };
        
        function sendToken(token) {
            document.getElementById('status').classList.remove('hidden');
            document.getElementById('buttons').classList.add('hidden');
            document.getElementById('loading').textContent = 'Token received! Closing...';
            document.getElementById('captcha-box').style.display = 'none';
            try {
                window.ipc.postMessage(JSON.stringify({type: "token", token: token}));
            } catch(e) {
                console.error('IPC error:', e);
                document.getElementById('loading').innerHTML = '<div class="error">IPC Error: ' + e + '</div>';
            }
        }
        
        function onResponse(token) {
            sendToken(token);
        }
        
        function skip(type) {
            try {
                window.ipc.postMessage(JSON.stringify({type: "skip", skipType: type}));
            } catch(e) {
                console.error('IPC error:', e);
            }
        }
        
        "#;

pub const HTML_MAIN_9: &'static str = r#"
        
        function onCaptchaLoad() {
            console.log('CAPTCHA script loaded, RENDER_NS=' + RENDER_NS);
            document.getElementById('loading').textContent = 'Rendering widget...';
            setTimeout(function() {
                try {
                    if (RENDER_NS === 'hcaptcha' && typeof hcaptcha !== 'undefined') {
                        console.log('Rendering hCaptcha');
                        hcaptcha.render('captcha-widget');
                        document.getElementById('loading').style.display = 'none';
                    } else if (RENDER_NS === 'grecaptcha.enterprise' && typeof grecaptcha !== 'undefined' && typeof grecaptcha.enterprise !== 'undefined') {
                        console.log('Rendering grecaptcha.enterprise');
                        grecaptcha.enterprise.render('captcha-widget');
                        document.getElementById('loading').style.display = 'none';
                    } else if (RENDER_NS === 'grecaptcha' && typeof grecaptcha !== 'undefined' && typeof grecaptcha.render === 'function') {
                        console.log('Rendering grecaptcha');
                        grecaptcha.render('captcha-widget');
                        document.getElementById('loading').style.display = 'none';
                    } else {
                        console.error('CAPTCHA library not loaded. RENDER_NS=' + RENDER_NS + ' hcaptcha=' + (typeof hcaptcha) + ' grecaptcha=' + (typeof grecaptcha));
                        document.getElementById('loading').innerHTML = '<div class="error">CAPTCHA library failed to load. RENDER_NS=' + RENDER_NS + '</div>';
                    }
                } catch(e) {
                    console.error('Render error:', e);
                    document.getElementById('loading').innerHTML = '<div class="error">Render error: ' + e + '</div>';
                }
            }, 100);
        }
    </script>
    <script src=""#;

pub const HTML_MAIN_10: &'static str = r#"" async defer onerror="document.getElementById('loading').innerHTML='<div class=error>Failed to load CAPTCHA script</div>'"></script>
</body>
</html>"#;

/// The test-mode page, split at each interpolated value.
pub const HTML_TEST_0: &'static str = r#"<!DOCTYPE html>
<html>
<head>
    <meta charset="UTF-8">
    <meta name="viewport" content="width=device-width, initial-scale=1.0">
    <title>CAPTCHA Test - "#;

pub const HTML_TEST_1: &'static str = r#"</title>
    <style>
        * { box-sizing: border-box; }
        body { 
            font-family: -apple-system, BlinkMacSystemFont, 'Segoe UI', Roboto, sans-serif; 
            margin: 0; 
            padding: 20px; 
            background: linear-gradient(135deg, #1a1a2e 0%, #16213e 100%); 
            color: white; 
            min-height: 100vh;
            display: flex;
            flex-direction: column;
            align-items: center;
        }
        .container { max-width: 500px; width: 100%; text-align: center; }
        .header { margin-bottom: 30px; }
        .header h1 { margin: 0 0 10px 0; font-size: 24px; }
        .hoster { color: #eebb1b; font-weight: bold; font-size: 16px; }
        .test-badge { 
            background: #4caf50; 
            color: white; 
            padding: 4px 12px; 
            border-radius: 4px; 
            font-size: 12px; 
            font-weight: bold;
            margin-left: 10px;
        }
        .captcha-box { 
            background: white; 
            border-radius: 8px; 
            padding: 40px 20px; 
            margin: 20px 0;
        }
        .captcha-type { color: #666; margin-bottom: 20px; font-size: 14px; }
        .solve-btn { 
            background: #4caf50; 
            color: white; 
            border: none; 
            padding: 20px 40px; 
            font-size: 18px; 
            border-radius: 8px; 
            cursor: pointer;
            font-weight: bold;
            transition: all 0.2s;
        }
        .solve-btn:hover { background: #45a049; transform: scale(1.05); }
        .solve-btn:active { transform: scale(0.98); }
        .buttons { 
            display: flex; 
            justify-content: space-between; 
            flex-wrap: wrap;
            gap: 10px;
            margin-top: 20px; 
            padding: 15px; 
            background: rgba(255,255,255,0.1); 
            border-radius: 8px; 
        }
        .btn { 
            padding: 10px 15px; 
            border: none; 
            border-radius: 4px; 
            cursor: pointer; 
            font-size: 13px;
            transition: opacity 0.2s;
        }
        .btn:hover { opacity: 0.8; }
        .btn-skip { background: #e94560; color: white; }
        .btn-cancel { background: #666; color: white; }
        .status { margin-top: 20px; padding: 15px; border-radius: 8px; }
        .success { background: #4caf50; color: white; }
        .hidden { display: none; }
        .info { color: #4fc3f7; margin-top: 20px; font-size: 13px; }
    </style>
</head>
<body>
    <div class="container">
        <div class="header">
            <h1>CAPTCHA Verification <span class="test-badge">TEST MODE</span></h1>
            <p>Simulating "#;

pub const HTML_TEST_2: &'static str = r#"</p>
            <p class="hoster">"#;

pub const HTML_TEST_3: &'static str = r#"</p>
        </div>
        <div class="captcha-box">
            <p class="captcha-type">Click the button to simulate solving the CAPTCHA</p>
            <button class="solve-btn" onclick="solveCaptcha()">&#10003; I'm not a robot</button>
        </div>
        <p class="info">This is a test window (v"#;

pub const HTML_TEST_4: &'static str = r#"). Clicking the button will generate a fake token to test the extension integration.</p>
        <div class="buttons" id="buttons">
            <div>
                <button class="btn btn-skip" onclick="skip('hoster')">Skip Hoster</button>
                <button class="btn btn-skip" onclick="skip('package')">Skip Package</button>
                <button class="btn btn-skip" onclick="skip('all')">Skip All</button>
            </div>
            <button class="btn btn-cancel" onclick="skip('single')">Cancel</button>
        </div>
        <div class="status hidden" id="status"></div>
    </div>
    <script>
        function solveCaptcha() {
            var fakeToken = 'TEST_TOKEN_' + Date.now() + '_' + Math.random().toString(36).substr(2, 40);
            sendToken(fakeToken);
        }
        
        function sendToken(token) {
            document.getElementById('status').textContent = 'Token generated: ' + token.substring(0, 30) + '...';
            document.getElementById('status').classList.remove('hidden');
            document.getElementById('status').classList.add('success');
            document.getElementById('buttons').classList.add('hidden');
            document.querySelector('.captcha-box').innerHTML = '<h2 style="color:#4caf50;margin:0">CAPTCHA Solved!</h2><p style="color:#666">Window will close...</p>';
            try {
                window.ipc.postMessage(JSON.stringify({type: "token", token: token}));
            } catch(e) {
                document.getElementById('status').textContent = 'IPC Error: ' + e;
                document.getElementById('status').classList.remove('success');
            }
        }
        
        function skip(type) {
            try {
                window.ipc.postMessage(JSON.stringify({type: "skip", skipType: type}));
            } catch(e) {
                console.error('IPC error:', e);
            }
        }
    </script>
</body>
</html>"#;

/// The first fragment of the challenge-trigger script, up to the namespace.
pub const V3_EXECUTE_0: &'static str = r#"function executeCaptcha() { "#;

/// The fragment between the namespace and the action name.
pub const V3_EXECUTE_1: &'static str = r#".execute({action: ""#;

/// The fragment after the action name.
pub const V3_EXECUTE_2: &'static str = r#""}).then(function(token) { sendToken(token); }); }"#;

/// The fragment after the namespace when an invisible key is triggered
/// without an action name.
pub const INVISIBLE_EXECUTE_1: &'static str = r#".execute(); }"#;

/// The view of an optional field, with the default used when it is absent.
pub open spec fn opt_or(o: Option<String>, d: Seq<char>) -> Seq<char> {
    match o {
        Some(s) => s@,
        None => d,
    }
}

/// Which widget script the page loads, by challenge type and enterprise flag.
pub open spec fn spec_script_url(ct: Seq<char>, enterprise: bool) -> Seq<char> {
    if ct == "HCaptchaChallenge"@ {
        HCAPTCHA_SCRIPT@
    } else if enterprise {
        RECAPTCHA_ENTERPRISE_SCRIPT@
    } else {
        RECAPTCHA_SCRIPT@
    }
}

/// The CSS class the widget element carries, by challenge type.
pub open spec fn spec_widget_class(ct: Seq<char>) -> Seq<char> {
    if ct == "HCaptchaChallenge"@ {
        "h-captcha"@
    } else {
        "g-recaptcha"@
    }
}

/// The JavaScript namespace the page renders through, by challenge type and
/// enterprise flag.
pub open spec fn spec_render_ns(ct: Seq<char>, enterprise: bool) -> Seq<char> {
    if ct == "HCaptchaChallenge"@ {
        "hcaptcha"@
    } else if enterprise {
        "grecaptcha.enterprise"@
    } else {
        "grecaptcha"@
    }
}

/// The widget's size attribute, by site-key type.
pub open spec fn spec_data_size(skt: Seq<char>) -> Seq<char> {
    if skt == "INVISIBLE"@ {
        "invisible"@
    } else {
        Seq::empty() + "normal"@
    }
}

/// The trigger button, present only for an invisible site key.
pub open spec fn spec_invisible_button(skt: Seq<char>) -> Seq<char> {
    if skt == "INVISIBLE"@ {
        INVISIBLE_BUTTON@
    } else {
        Seq::empty()
    }
}

/// The challenge-trigger script: an action-scoped execute for a v3 action
/// name, a bare execute for an invisible key, nothing otherwise.
pub open spec fn spec_v3_execute(ns: Seq<char>, v3action: Seq<char>, skt: Seq<char>) -> Seq<
    char,
> {
    if v3action.len() > 0 {
        V3_EXECUTE_0@ + ns + V3_EXECUTE_1@ + js_escaped(v3action) + V3_EXECUTE_2@
    } else if skt == "INVISIBLE"@ {
        V3_EXECUTE_0@ + ns + INVISIBLE_EXECUTE_1@
    } else {
        Seq::empty()
    }
}

/// The human-readable name of the simulated challenge on the test page.
pub open spec fn spec_captcha_name(ct: Seq<char>) -> Seq<char> {
    if ct == "HCaptchaChallenge"@ {
        "hCaptcha"@
    } else if ct == "recaptchav3"@ {
        "reCAPTCHA v3"@
    } else {
        "reCAPTCHA v2"@
    }
}

/// The test-mode page for a job: the test template with the challenge name,
/// the escaped hoster and the version interpolated. No third-party script is
/// loaded; its button produces a fake token.
pub open spec fn spec_test_captcha_html(job: CaptchaJob, version: Seq<char>) -> Seq<char> {
    let name = spec_captcha_name(opt_or(job.challenge_type, "recaptchav2"@));
    let hoster = html_escaped(opt_or(job.hoster, "Test Mode"@));
    HTML_TEST_0@ + name + HTML_TEST_1@ + name + HTML_TEST_2@ + hoster + HTML_TEST_3@ + version
        + HTML_TEST_4@
}

/// The challenge page for a job: the page template with the escaped hoster,
/// the escaped site key, the widget class, data size, trigger button and
/// script, the namespace and the version interpolated; a test job gets the
/// test page instead.
pub open spec fn spec_captcha_html(job: CaptchaJob, version: Seq<char>) -> Seq<char> {
    if job.test {
        spec_test_captcha_html(job, version)
    } else {
        let ct = opt_or(job.challenge_type, "recaptchav2"@);
        let skt = opt_or(job.site_key_type, "normal"@);
        let enterprise = match job.enterprise {
            Some(b) => b,
            None => false,
        };
        let ns = spec_render_ns(ct, enterprise);
        HTML_MAIN_0@ + html_escaped(opt_or(job.hoster, "Unknown"@)) + HTML_MAIN_1@
            + html_escaped(opt_or(job.hoster, "Unknown"@)) + HTML_MAIN_2@ + spec_widget_class(ct)
            + HTML_MAIN_3@ + html_escaped(job.site_key@) + HTML_MAIN_4@ + spec_data_size(skt)
            + HTML_MAIN_5@ + spec_invisible_button(skt) + HTML_MAIN_6@ + ns + HTML_MAIN_7@
            + version + HTML_MAIN_8@ + spec_v3_execute(ns, opt_or(job.v3action, Seq::empty()), skt)
            + HTML_MAIN_9@ + spec_script_url(ct, enterprise) + HTML_MAIN_10@
    }
}

/// Renders the page a presenter shows for a job; a test job gets the
/// self-contained test page.
pub fn generate_captcha_html(job: &CaptchaJob, version: &str) -> (r: String)
    ensures
        r@ == spec_captcha_html(*job, version@),
{
    if job.test {
        return generate_test_captcha_html(job, version);
    }
    proof {
        reveal_strlit("");
        assert(""@ =~= Seq::<char>::empty());
    }
    let ct: &str = match &job.challenge_type {
        Some(s) => s.as_str(),
        None => "recaptchav2",
    };
    let skt: &str = match &job.site_key_type {
        Some(s) => s.as_str(),
        None => "normal",
    };
    let enterprise: bool = match job.enterprise {
        Some(b) => b,
        None => false,
    };
    let v3: &str = match &job.v3action {
        Some(s) => s.as_str(),
        None => "",
    };
    let hoster_raw: &str = match &job.hoster {
        Some(s) => s.as_str(),
        None => "Unknown",
    };
    let hoster = escape_html(hoster_raw);
    let site_key = escape_html(job.site_key.as_str());
    let is_hcaptcha = str_eq(ct, "HCaptchaChallenge");
    let invisible = str_eq(skt, "INVISIBLE");

    let script_url: &str = if is_hcaptcha {
        HCAPTCHA_SCRIPT
    } else if enterprise {
        RECAPTCHA_ENTERPRISE_SCRIPT
    } else {
        RECAPTCHA_SCRIPT
    };
    let widget_class: &str = if is_hcaptcha {
        "h-captcha"
    } else {
        "g-recaptcha"
    };
    let render_ns: &str = if is_hcaptcha {
        "hcaptcha"
    } else if enterprise {
        "grecaptcha.enterprise"
    } else {
        "grecaptcha"
    };
    let data_size: &str = if invisible {
        "invisible"
    } else {
        "normal"
    };
    let invisible_button: &str = if invisible {
        INVISIBLE_BUTTON
    } else {
        ""
    };

    let mut v3_execute = String::new();
    if !v3.is_empty() {
        let v3_escaped = escape_js(v3);
        v3_execute.append(V3_EXECUTE_0);
        v3_execute.append(render_ns);
        v3_execute.append(V3_EXECUTE_1);
        v3_execute.append(v3_escaped.as_str());
        v3_execute.append(V3_EXECUTE_2);
    } else if invisible {
        v3_execute.append(V3_EXECUTE_0);
        v3_execute.append(render_ns);
        v3_execute.append(INVISIBLE_EXECUTE_1);
    }

    let mut out = String::new();
    out.append(HTML_MAIN_0);
    out.append(hoster.as_str());
    out.append(HTML_MAIN_1);
    out.append(hoster.as_str());
    out.append(HTML_MAIN_2);
    out.append(widget_class);
    out.append(HTML_MAIN_3);
    out.append(site_key.as_str());
    out.append(HTML_MAIN_4);
    out.append(data_size);
    out.append(HTML_MAIN_5);
    out.append(invisible_button);
    out.append(HTML_MAIN_6);
    out.append(render_ns);
    out.append(HTML_MAIN_7);
    out.append(version);
    out.append(HTML_MAIN_8);
    out.append(v3_execute.as_str());
    out.append(HTML_MAIN_9);
    out.append(script_url);
    out.append(HTML_MAIN_10);
    proof {
        assert(out@ =~= spec_captcha_html(*job, version@));
    }
    out
}

/// Renders the test-mode page for a job: no third-party widget, one button
/// that produces a fake token, for checking the extension integration end
/// to end.
pub fn generate_test_captcha_html(job: &CaptchaJob, version: &str) -> (r: String)
    ensures
        r@ == spec_test_captcha_html(*job, version@),
{
    let ct: &str = match &job.challenge_type {
        Some(s) => s.as_str(),
        None => "recaptchav2",
    };
    let captcha_name: &str = if str_eq(ct, "HCaptchaChallenge") {
        "hCaptcha"
    } else if str_eq(ct, "recaptchav3") {
        "reCAPTCHA v3"
    } else {
        "reCAPTCHA v2"
    };
    let hoster_raw: &str = match &job.hoster {
        Some(s) => s.as_str(),
        None => "Test Mode",
    };
    let hoster = escape_html(hoster_raw);
    let mut out = String::new();
    out.append(HTML_TEST_0);
    out.append(captcha_name);
    out.append(HTML_TEST_1);
    out.append(captcha_name);
    out.append(HTML_TEST_2);
    out.append(hoster.as_str());
    out.append(HTML_TEST_3);
    out.append(version);
    out.append(HTML_TEST_4);
    proof {
        assert(out@ =~= spec_test_captcha_html(*job, version@));
    }
    out
}

} // verus!
