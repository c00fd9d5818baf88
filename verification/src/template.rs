use vstd::prelude::*;

verus! {

/// The fixed page shell. The composed page is these six pieces with the
/// escaped title, the sidebar, the main content, the table of contents and
/// the decimal poll interval substituted between them, in that order.
/// Page template up to the escaped title.
pub const TPL_BEFORE_TITLE: &'static str = r#"<!doctype html>
<html lang="en">
  <head>
    <meta charset="utf-8" />
    <meta name="viewport" content="width=device-width, initial-scale=1" />
    <meta name="color-scheme" content="dark" />
    <title>"#;

/// Page template between the title and the sidebar markup.
pub const TPL_TITLE_TO_SIDEBAR: &'static str = r#" - Preview</title>
    <link rel="preconnect" href="https://fonts.googleapis.com" />
    <link rel="preconnect" href="https://fonts.gstatic.com" crossorigin />
    <link
      href="https://fonts.googleapis.com/css2?family=Space+Grotesk:wght@500;600;700&family=Inter:wght@400;500;600&display=swap"
      rel="stylesheet"
    />
    <style>
      :root {
        --bg: #0b0e14;
        --panel: rgba(255, 255, 255, 0.03);
        --border: rgba(255, 255, 255, 0.08);
        --text: #f0f4f8;
        --text-muted: #94a3b8;
        --link: #7dd3fc;
        --link-hover: #a7f3d0;
        --link-underline: rgba(125, 211, 252, 0.38);
        --link-underline-hover: rgba(167, 243, 208, 0.55);
        --radius: 18px;
        --shadow: 0 24px 60px -12px rgba(0, 0, 0, 0.5);
        --nav-height: 72px;
      }

      * { box-sizing: border-box; }
      html { scroll-behavior: smooth; }

      body {
        margin: 0;
        background: var(--bg);
        color: var(--text);
        font-family: "Inter", sans-serif;
        line-height: 1.7;
        overflow-x: hidden;
        -webkit-font-smoothing: antialiased;
      }

      body::before {
        content: "";
        position: fixed;
        top: -20%;
        left: -10%;
        width: 60%;
        height: 60%;
        background: radial-gradient(circle, rgba(46, 204, 113, 0.09), transparent 70%);
        pointer-events: none;
        z-index: -1;
      }

      body::after {
        content: "";
        position: fixed;
        bottom: -25%;
        right: -15%;
        width: 70%;
        height: 70%;
        background: radial-gradient(circle, rgba(52, 152, 219, 0.09), transparent 70%);
        pointer-events: none;
        z-index: -1;
      }

      a { color: inherit; text-decoration: none; }
      a:hover { text-decoration: underline; text-underline-offset: 3px; }
      h1, h2, h3 {
        font-family: "Space Grotesk", sans-serif;
        letter-spacing: -0.02em;
        margin: 0;
      }
      p { margin: 0; }

      .container { width: min(1200px, calc(100% - 40px)); margin: 0 auto; }

      .nav {
        position: sticky;
        top: 0;
        z-index: 100;
        height: var(--nav-height);
        display: flex;
        align-items: center;
        background: rgba(11, 14, 20, 0.72);
        backdrop-filter: blur(14px);
        -webkit-backdrop-filter: blur(14px);
        border-bottom: 1px solid var(--border);
      }

      .nav-inner {
        display: flex;
        align-items: center;
        justify-content: space-between;
        gap: 18px;
      }

      .brand {
        display: inline-flex;
        align-items: center;
        gap: 12px;
        font-weight: 700;
        font-size: 18px;
      }

      .logo-dot {
        width: 30px;
        height: 30px;
        border-radius: 999px;
        background: radial-gradient(circle at 30% 30%, #6ae7a6, #2ecc71 42%, #3498db 100%);
        box-shadow: 0 14px 34px -18px rgba(46, 204, 113, 0.55);
      }

      .nav-links {
        display: flex;
        align-items: center;
        gap: 18px;
        font-size: 14px;
        font-weight: 600;
        color: var(--text-muted);
      }

      .nav-links a:hover { color: var(--text); text-decoration: none; }

      .pill {
        display: inline-flex;
        align-items: center;
        padding: 8px 14px;
        border-radius: 999px;
        border: 1px solid var(--border);
        background: rgba(255, 255, 255, 0.04);
        font-size: 13px;
        color: var(--text);
        white-space: nowrap;
      }

      .pill:hover { background: rgba(255, 255, 255, 0.07); text-decoration: none; }

      .page { padding: 32px 0 84px; }

      .preview-note {
        margin-bottom: 14px;
        display: inline-flex;
        gap: 10px;
        align-items: center;
        padding: 6px 12px;
        border-radius: 999px;
        border: 1px solid rgba(125, 211, 252, 0.25);
        background: rgba(125, 211, 252, 0.1);
        color: #7dd3fc;
        font-size: 13px;
        font-weight: 600;
      }

      .doc-grid {
        margin-top: 10px;
        display: grid;
        grid-template-columns: 260px minmax(0, 1fr) 220px;
        gap: 26px;
        align-items: start;
      }

      .card {
        background: var(--panel);
        border: 1px solid var(--border);
        border-radius: var(--radius);
        box-shadow: var(--shadow);
      }

      .sidebar {
        padding: 18px;
        position: sticky;
        top: calc(var(--nav-height) + 18px);
      }

      .section {
        font-size: 12px;
        letter-spacing: 0.08em;
        text-transform: uppercase;
        color: rgba(148, 163, 184, 0.85);
        margin-bottom: 12px;
      }

      .item {
        display: block;
        padding: 10px 12px;
        border-radius: 12px;
        color: var(--text);
        border: 1px solid transparent;
      }

      .item:hover {
        background: rgba(255, 255, 255, 0.04);
        border-color: rgba(255, 255, 255, 0.06);
        text-decoration: none;
      }

      .item span {
        display: block;
        color: rgba(148, 163, 184, 0.92);
        font-size: 12px;
        margin-top: 2px;
        font-weight: 500;
      }

      .item.active {
        background: rgba(255, 255, 255, 0.06);
        border-color: rgba(255, 255, 255, 0.12);
      }

      .content { padding: 26px; }
      .content > * + * { margin-top: 14px; }
      .content h1 { font-size: 34px; line-height: 1.15; margin-top: 6px; }
      .content h2 { font-size: 26px; margin-top: 34px; }
      .content h3 { font-size: 18px; margin-top: 22px; }
      .content p, .content li { color: rgba(240, 244, 248, 0.9); }
      .content ul, .content ol { margin: 10px 0 0; padding-left: 20px; }
      .content li { margin: 8px 0; }

      .content a {
        color: var(--link);
        text-decoration: underline;
        text-decoration-color: var(--link-underline);
        text-underline-offset: 3px;
        text-decoration-thickness: 2px;
      }

      .content a:hover {
        color: var(--link-hover);
        text-decoration-color: var(--link-underline-hover);
      }

      .content a.btn {
        text-decoration: none;
      }

      .content a.btn:not(.btn-primary) {
        color: var(--text);
      }

      .content a.btn:hover {
        text-decoration: none;
      }

      .content blockquote {
        margin: 12px 0 0;
        border-left: 3px solid rgba(125, 211, 252, 0.5);
        padding: 8px 14px;
        background: rgba(125, 211, 252, 0.06);
        border-radius: 10px;
      }

      .content code {
        font-family: ui-monospace, SFMono-Regular, Menlo, Monaco, Consolas, "Liberation Mono", "Courier New", monospace;
        font-size: 0.95em;
        background: rgba(255, 255, 255, 0.06);
        border: 1px solid rgba(255, 255, 255, 0.09);
        padding: 2px 8px;
        border-radius: 10px;
      }

      .content pre {
        margin: 10px 0 0;
        padding: 14px 16px;
        border-radius: 16px;
        background: rgba(0, 0, 0, 0.35);
        border: 1px solid rgba(255, 255, 255, 0.08);
        overflow: auto;
      }

      .content pre code { background: transparent; border: none; padding: 0; }

      .content img {
        max-width: 100%;
        height: auto;
        border-radius: 12px;
        margin: 10px 0;
      }

      .fix-prompt {
        margin-top: 26px;
        border-top: 1px solid rgba(255, 255, 255, 0.08);
        padding-top: 20px;
      }

      .callout {
        margin-top: 12px;
        border-radius: 16px;
        padding: 14px 16px;
        border: 1px solid rgba(255, 255, 255, 0.08);
        background: rgba(255, 255, 255, 0.03);
      }

      .callout strong {
        display: block;
        margin-bottom: 6px;
        font-family: "Space Grotesk", sans-serif;
        letter-spacing: -0.01em;
      }

      .callout.tip {
        border-color: rgba(46, 204, 113, 0.22);
        background: rgba(46, 204, 113, 0.06);
      }

      .hero-actions {
        margin-top: 14px;
        display: flex;
        flex-wrap: wrap;
        gap: 12px;
      }

      .btn {
        display: inline-flex;
        align-items: center;
        justify-content: center;
        padding: 12px 18px;
        border-radius: 14px;
        font-weight: 700;
        font-size: 14px;
        border: 1px solid var(--border);
        background: var(--panel);
        transition: transform 0.2s, background 0.2s, border-color 0.2s;
      }

      .btn:hover {
        transform: translateY(-1px);
        background: rgba(255, 255, 255, 0.06);
        border-color: rgba(255, 255, 255, 0.12);
        text-decoration: none;
      }

      .btn-primary {
        border: none;
        background: linear-gradient(135deg, rgba(255, 255, 255, 0.92), rgba(255, 255, 255, 0.86));
        color: #0b0e14;
      }

      .btn-primary:hover {
        background: #fff;
      }

      .toc {
        position: sticky;
        top: calc(var(--nav-height) + 18px);
        padding: 18px;
      }

      .toc .label {
        font-size: 12px;
        letter-spacing: 0.08em;
        text-transform: uppercase;
        color: rgba(148, 163, 184, 0.85);
        margin-bottom: 10px;
      }

      .toc a {
        display: block;
        padding: 8px 10px;
        border-radius: 12px;
        color: rgba(240, 244, 248, 0.82);
        border: 1px solid transparent;
      }

      .toc a:hover {
        background: rgba(255, 255, 255, 0.04);
        border-color: rgba(255, 255, 255, 0.06);
        text-decoration: none;
      }

      .toc .small {
        font-size: 13px;
        color: rgba(148, 163, 184, 0.92);
        margin-top: 2px;
      }

      @media (max-width: 1050px) {
        .doc-grid { grid-template-columns: 260px minmax(0, 1fr); }
        .toc { display: none; }
      }

      @media (max-width: 820px) {
        .nav-links { display: none; }
        .doc-grid { grid-template-columns: 1fr; }
        .sidebar { position: static; }
        .content { padding: 20px; }
      }
    </style>
  </head>
  <body>
    <header class="nav">
      <div class="container nav-inner">
        <a class="brand" href="/docs">
          <span class="logo-dot" aria-hidden="true"></span>
          Manatan Docs Preview
        </a>
        <nav class="nav-links" aria-label="Primary">
          <a href="/docs" style="color: var(--text);">Docs</a>
          <a href="https://github.com/KolbyML/Manatan-Documentation" target="_blank" rel="noopener noreferrer">Repo</a>
        </nav>
        <a class="pill" href="https://github.com/KolbyML/Manatan-Documentation" target="_blank" rel="noopener noreferrer">Edit docs</a>
      </div>
    </header>

    <main class="page">
      <div class="container">
        <div class="preview-note">Local preview with live reload</div>
        <section class="doc-grid">
          <aside class="card sidebar">"#;

/// Page template between the sidebar and the main content markup.
pub const TPL_SIDEBAR_TO_CONTENT: &'static str = r#"</aside>
          <article class="card content">"#;

/// Page template between the main content and the table-of-contents markup.
pub const TPL_CONTENT_TO_TOC: &'static str = r#"</article>
          <aside class="card toc">"#;

/// Page template between the table of contents and the poll interval.
pub const TPL_TOC_TO_POLL: &'static str = r#"</aside>
        </section>
      </div>
    </main>

    <script>
      (() => {
        const intervalMs = Number(""#;

/// Page template after the poll interval.
pub const TPL_AFTER_POLL: &'static str = r#"") || 1000;
        let previousVersion = null;

        async function checkForChanges() {
          try {
            const response = await fetch('/__preview/version', { cache: 'no-store' });
            const version = (await response.text()).trim();

            if (previousVersion === null) {
              previousVersion = version;
              return;
            }

            if (version !== previousVersion) {
              window.location.reload();
            }
          } catch (_) {
            // ignore transient polling errors
          }
        }

        setInterval(checkForChanges, intervalMs);
        checkForChanges();
      })();
    </script>
  </body>
</html>
"#;

} // verus!
