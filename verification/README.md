# gitjobs-server

The GitJobs job board server, with its decisions and data structures verified
with Verus.

## Layout

- `src/` — the verified library (`gitjobs_server`):
  - `tally` — per-job, per-day event counters and the sorted rows they are
    written to the database as;
  - `event_tracker` — aggregation of job views and search appearances, and the
    decisions of the aggregator and flusher workers;
  - `db` — the clients kept aside while they hold an open transaction, and
    their timeout;
  - `notifications` — notification kinds, email subjects and the decisions of
    the delivery worker;
  - `img` — image formats, SVG detection and the versions an uploaded image
    is stored in;
  - `auth` — credentials, users, password checks and the user summaries built
    from GitHub profiles and OpenID Connect claims;
  - `handlers`, `router`, `config` — the steps of a log in, redirect
    targets, response headers, static assets, accepted job statuses,
    dashboard tabs, request rejections, and the server's route table (each
    route's method, path and guard, with the routes each login option
    enables);
  - `text` — the string operations the rest is written with.
- `app/` — the server binary: configuration, the PostgreSQL queries it needs,
  SMTP, and the loops of the event tracker, the notification delivery worker
  and the transaction cleaner, whose decisions it takes from the library. It
  serves the health check, static files, public images and job view
  tracking, building its router from the library's route table, behind the
  basic authentication the configuration asks for; the log in, dashboard and
  job board pages are not part of it.
- `tests/` — tests of the library.

The public functions of the library state their results in their contracts,
except where a result rests on the clock, on chance or on pixels computed by
the `image` crate: there the contract states what holds of every outcome, or
names the outside result. The laws that span several functions are public
proof functions named `law_*`.
