# kply

Verified core of Kply, the Kubeply CLI that gives AI coding agents safe,
temporary Kubernetes sandbox sessions instead of raw cluster access.

`src/` is the library, written in Verus and proved against its contracts:

- `text`, `lines`, `order`, `token` — characters, lines, string order, and
  the validation of the tokens that Kubernetes names are made of;
- `ids`, `values` — validated identifiers, image references, lifetimes,
  quantities, and route selectors;
- `graph`, `session`, `metadata` — the application graph, session status
  transitions, policies, plans, events and reports, and planned metadata;
- `manifest`, `routing` — sandbox Deployment and Service manifests, Gateway
  API detection, capabilities, HTTPRoute manifests and route cleanup;
- `k8s`, `cleanup` — plain summaries of cluster objects, error
  classification, listing order, and the session cleanup state machine;
- `json`, `gateway`, `settings` — JSON documents as plain values, Gateway
  API summaries read from them, and the repository settings (TOML and YAML
  files decoded into the same values) that the policy checks judge;
- `sanitize`, `checks`, `policy`, `pattern`, `fixtures`, `cli` — repository
  policy checks, Rust source sanitizing, regular expressions, test fixtures,
  and the command line as plain values.

`app/` holds what Verus does not see: file and Kubernetes I/O, conversions of
Kubernetes API objects, decoding of TOML and YAML documents, serde and clap
types, and the repository task runner.
`tests/` exercises the library from outside.
