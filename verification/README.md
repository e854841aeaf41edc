# odoo-operator

The decisions of a Kubernetes operator for Odoo, written in Verus: what each
object of an `OdooInstance` holds, which changes to an instance are admitted,
and when the database of a staging instance may sleep.

The library in `src/` talks to nobody. Its functions take what the API server
answered and say what to write or to ask next; their contracts say what that is,
and Verus proves them. The operator in `app/` performs the calls.

| Module | What it decides |
|---|---|
| `controller::helpers` | volumes, mounts, environment, launch commands and jobs that every pod shares |
| `controller::child_resources` | defaults, Secrets, `odoo.conf`, filestore claim, routing, Deployments, retirement of cron |
| `controller::monitoring` | the StatsD exporter beside production web pods |
| `controller::staging_sleep` | the guard that drains an instance and hibernates its CNPG cluster |
| `controller::states` | what an instance does while it is in a state |
| `crd` | the `OdooInstance` resource and the rules of its schema |
| `webhook` | admission |
| `k8s` | the Kubernetes objects, as plain values |
| `text`, `string_map` | texts and maps keyed by them |

Each type has a view, named after it with `View` behind, and contracts speak of
the views. What holds of several functions together is stated by public proof
functions, at the end of the module it is about; those of the sleep guard are in
`controller::staging_sleep::laws`.

What is not proved is said where it is declared: a few calls of the standard
library in `text`, the reading of JSON documents in `k8s::dynamic`, and the parts
of an object that are handed on unread in `k8s::opaque`.
