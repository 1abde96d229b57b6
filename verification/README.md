# open_remote_url

Open URLs in the browser of another machine. The client runs where a
browser open is intercepted (a virtual machine or a container, say) and
hands the URL to the host, which opens it in its own browser. Ports that
open on the client around that moment are proxied from the host back to
the client, so that a local callback (a login redirect, for instance)
reaches the service that waits for it.

## Layout

- `src/` — the library, verified with Verus:
  - `config`, `paths`, `locations`, `naming`: settings, their defaults and
    the places and names an installation uses on each platform;
  - `auth`, `codec`, `messages`, `urls`, `text`: request checks, base64
    bodies, wire messages and small string rules;
  - `port_sets`, `port_tracker`, `proxy_registry`, `proxy_flow`: which ports
    are announced, which proxies are open, and how a proxied request and its
    reply travel;
  - `steps`, `service`, `templates`, `install`, `removal`, `scheme_handler`,
    `status`: installation, removal and URL-scheme registration as plans of
    steps, with what each plan writes and removes;
  - `lifecycle`: laws that span those plans (removal undoes installation,
    both stop running daemons first);
  - `cli`, `folders`, `panel`, `url_events`: command-line decisions, showing
    the settings folder, the status panel's
    state and the queue of URLs handed over by the desktop.
- `app/` — the programs around the library: the daemons' HTTP servers, the
  execution of plans, file and process access, and the macOS event glue.
- `tests/` — tests of the library on concrete values.
