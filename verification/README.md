# spacebot-homelab-mcp

An MCP server that gives an agent Docker, SSH and Proxmox VE tools for a
homelab, with tool enabling, per-tool rate limits, two-step confirmation of
destructive operations, command screening for SSH, audit logging and an
execution-proof envelope on every reply.

## Layout

- `src/` is the library, written in Verus. Every function there carries a
  contract that Verus proves: the configuration model and its validation,
  SSH command screening, the confirmation-token manager, the rate limiter,
  connection health and back-off, the SSH session pool, and, for each tool,
  the texts, forms, paths, JSON parameters and decisions (VMID retries,
  task polling, absence checks) that the tool is made of. Laws that relate
  several calls (a token is single-use and tool-specific, at most `limit`
  calls are admitted per minute, releasing a channel undoes acquiring it,
  and so on) stand as proof functions named `law_*` beside the code they
  speak of.
- `app/` is the program around it: command-line handling, the MCP transport,
  the Docker, SSH, SFTP and HTTP calls, the health-monitor loop, Prometheus
  metrics, the interactive setup wizard and the `doctor` command. It hands
  the library plain values and performs what the library decides.
- `tests/` runs the library on concrete inputs.

Calls into outside crates that the library's logic makes (serde_json string
quoting, uuid, chrono, bollard and reqwest client construction, russh's
known-hosts lookup) go through small trusted wrappers whose doc comments say
what is assumed of them.
