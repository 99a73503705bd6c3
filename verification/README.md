# locaryn_plugin_ssh

Remote SSH connector for an agent runtime, written in Verus.

`src/` is the verified library:

- `hostkey` — fingerprint comparison and host-key pinning (first contact
  captures the key; afterwards only the pinned fingerprint is accepted). The
  comparison has no early exit over the bytes, so it runs in constant time by
  construction; that timing property is not proved.
- `credentials` — targets and credentials; secrets sit in `Zeroizing`
  buffers and never reach a target's description.
- `connect` — which authentication method a credential calls for, the
  client configuration, and the text of every connection failure.
- `session` — folding channel messages into a command's output and exit
  code, and the self-cleaning capability probe.
- `exec` — the `ssh_exec` tool's request, result and entry point.
- `mcp` — recognising JSON-RPC methods and tool names, error codes and
  messages, and the tool catalogue.
- `text` — trimming, comparison and decimal rendering over `Seq<char>`.

`app/` is the MCP server (JSON over standard input and output) and the live
russh client, which perform the I/O that the library decides on.
