# wasmcloud-installer

Installs the wasmCloud operator and its Custom Resource Definitions on a Kubernetes
cluster.

- `src/` is the verified library (Verus): the kubeconfig model and its lookups, the
  manifests of every resource the installer creates, the checks run before and after
  installing, and every decision taken on what the cluster answers (existing objects,
  access reviews, each poll of the deployment and the CRDs, what stalled pods report).
- `app/` is the command-line program around it: argument parsing, reading the
  kubeconfig file, the asynchronous Kubernetes client, progress output, and the
  conversion between the library's plain values and the Kubernetes API types.
- `tests/` exercises the library on concrete values.
