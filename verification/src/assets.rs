//! The style sheet and the script that every page carries.

use vstd::prelude::*;

verus! {

/// The style sheet.
pub const STYLE_CSS: &'static str = r##"
:root {
  --bg: #10141a;
  --surface: #1a212b;
  --border: #2c3644;
  --text: #e6edf3;
  --text-muted: #8b98a8;
  --accent: #58a6ff;
  --success: #2ea043;
  --danger: #f85149;
}
* { box-sizing: border-box; }
body {
  margin: 0;
  background: var(--bg);
  color: var(--text);
  font-family: system-ui, sans-serif;
  font-size: 1rem;
  line-height: 1.4;
}
header, .conv-bar {
  display: flex;
  flex-wrap: wrap;
  align-items: center;
  gap: 0.75rem;
  padding: 0.75rem 1rem;
  border-bottom: 1px solid var(--border);
}
header h1 { margin: 0; font-size: 1.1rem; }
.header-spacer, .conv-bar-spacer { flex: 1; }
.project-name, .conv-none, .commit-hint, .conv-entry-meta, .conv-entry-started { color: var(--text-muted); }
main { display: grid; grid-template-columns: 1fr; gap: 1rem; padding: 1rem; }
@media (min-width: 769px) { main { grid-template-columns: 2fr 1fr; } }
.card { background: var(--surface); border: 1px solid var(--border); border-radius: 8px; margin-bottom: 1rem; }
.card-header { display: flex; align-items: center; padding: 0.75rem 1rem; border-bottom: 1px solid var(--border); }
.card-header h2 { margin: 0; font-size: 1rem; }
.card-body { padding: 1rem; }
.btn {
  display: inline-block;
  min-height: 44px;
  padding: 0.6rem 1rem;
  border: 1px solid var(--border);
  border-radius: 6px;
  color: var(--text);
  background: var(--surface);
  font: inherit;
  text-decoration: none;
  cursor: pointer;
}
.btn[disabled] { opacity: 0.5; cursor: not-allowed; }
.btn-primary { background: var(--accent); color: #08111c; }
.btn-success { background: var(--success); }
.btn-sm { font-size: 0.85rem; }
.voice-controls, .prompt-actions, .commit-row, .diff-controls { display: flex; flex-wrap: wrap; gap: 0.5rem; margin-bottom: 0.75rem; }
.record-dot { display: inline-block; width: 0.6rem; height: 0.6rem; border-radius: 50%; background: var(--text-muted); }
.recording .record-dot { background: var(--danger); }
textarea, input[type=text], input[type=password] {
  width: 100%;
  min-height: 44px;
  padding: 0.6rem;
  border: 1px solid var(--border);
  border-radius: 6px;
  background: var(--bg);
  color: var(--text);
  font: inherit;
}
.conv-bar input[type=text], header input[type=password] { width: auto; }
.output-box { max-height: 60vh; overflow-y: auto; font-family: monospace; white-space: pre-wrap; }
.output-line { display: block; }
.output-line.stderr { color: var(--danger); }
.output-empty { color: var(--text-muted); }
.status-running { color: var(--accent); }
.status-done { color: var(--success); }
.status-failed { color: var(--danger); }
.alert { padding: 0.75rem; border-radius: 6px; border: 1px solid var(--border); }
.alert-error { border-color: var(--danger); }
.alert-info { border-color: var(--accent); }
.conv-entry { display: flex; flex-wrap: wrap; gap: 0.75rem; align-items: center; padding: 0.5rem 1rem; }
.file-row { display: block; min-height: 44px; padding: 0.5rem 0; }
"##;

/// The script: audio capture, the live stream, the password field, local times.
pub const APP_JS: &'static str = r##"
(function () {
  'use strict';

  var password = document.getElementById('password');
  if (password) {
    password.value = sessionStorage.getItem('agent2web-password') || '';
    password.addEventListener('input', function () {
      sessionStorage.setItem('agent2web-password', password.value);
    });
  }

  document.addEventListener('submit', function (event) {
    var form = event.target;
    if (!password || form.method.toLowerCase() !== 'post') { return; }
    var field = form.querySelector('input[type=hidden][name=password]');
    if (!field) {
      field = document.createElement('input');
      field.type = 'hidden';
      field.name = 'password';
      form.appendChild(field);
    }
    field.value = password.value;
  }, true);

  function localTimes(root) {
    root.querySelectorAll('time[data-unix]').forEach(function (node) {
      node.textContent = new Date(Number(node.dataset.unix) * 1000).toLocaleString();
    });
  }
  localTimes(document);
  document.addEventListener('htmx:afterSwap', function (event) { localTimes(event.target); });

  var output = document.getElementById('agent-output');
  if (output) {
    new MutationObserver(function () { output.scrollTop = output.scrollHeight; })
      .observe(output, { childList: true });
    if (output.dataset.sseRunning === 'true') {
      var source = new EventSource('/stream');
      source.onmessage = function (event) {
        if (event.data === '__DONE__') {
          source.close();
          location.reload();
          return;
        }
        var line = document.createElement('span');
        line.className = event.data.startsWith('[stderr] ') ? 'output-line stderr' : 'output-line';
        line.textContent = event.data;
        output.appendChild(line);
      };
    }
  }

  var record = document.getElementById('btn-record');
  var stop = document.getElementById('btn-stop');
  var status = document.getElementById('record-status');
  var prompt = document.getElementById('prompt');
  if (!record || !stop || !status || !prompt) { return; }

  var recorder = null;
  function say(text, active) {
    status.lastElementChild.textContent = text;
    status.classList.toggle('recording', active);
  }

  var submit = document.querySelector('#run-form button[type=submit]');
  function uploading(active) {
    if (submit) { submit.disabled = active; }
  }

  function upload(chunks) {
    var form = new FormData();
    form.append('audio', new Blob(chunks, { type: 'audio/webm' }), 'recording.webm');
    if (password) { form.append('password', password.value); }
    say('Transcribing', false);
    uploading(true);
    fetch('/audio', { method: 'POST', body: form })
      .then(function (response) { return response.json(); })
      .then(function (data) {
        uploading(false);
        if (data.error) { say(data.error, false); return; }
        prompt.value = data.transcript;
        say('Ready to record', false);
      })
      .catch(function () {
        uploading(false);
        say('Upload failed', false);
      });
  }

  record.addEventListener('click', function () {
    navigator.mediaDevices.getUserMedia({ audio: true }).then(function (stream) {
      var chunks = [];
      recorder = new MediaRecorder(stream, { mimeType: 'audio/webm;codecs=opus' });
      recorder.ondataavailable = function (event) { chunks.push(event.data); };
      recorder.onstop = function () {
        stream.getTracks().forEach(function (track) { track.stop(); });
        upload(chunks);
      };
      recorder.start();
      say('Recording', true);
    }).catch(function () { say('Microphone not available', false); });
  });

  stop.addEventListener('click', function () {
    if (recorder && recorder.state === 'recording') { recorder.stop(); }
  });
})();
"##;

} // verus!
