# altpay

The payment logic of a Core Lightning plugin that pays invoices along routes found by the Lightning
Development Kit, written in Verus. The plugin itself is a thin shell around it.

What is proved:

- short channel ids survive the way between number and text (`scid`);
- a path found by the router becomes hops with the right amounts and timelocks, free of overflow
  (`route`), and the requests for all parts of a payment agree with each other (`send`);
- notifications of the node are read, tied to the path that was sent, and answered with the right
  decision: credit, ignore, give up after eight retries, or try again without the channels that
  failed (`json`, `payments`);
- invoices and command arguments lead to the right question to the router or the right refusal
  (`invoice`, `params`, `keys`, `commands`);
- the graph is fetched when it is new or five minutes old, and at most twice each time (`sync`);
- the walk over all nodes probes each of them once, in order, until it is stopped, and an earlier
  stop does not stop a new walk
  (`network_probe`);
- only channels in normal operation to connected peers are offered as first hops (`peers`).

The calls into other crates that this rests on are each marked `external_body` or
`assume_specification`, with a comment that says what is taken for granted.

`src/` is the library, `tests/` its tests, `app/` the plugin: the node's socket, the disk, the clock
and the router.

The plugin reads `~/.config/altpay.toml` and takes the public key of the node from the variable
`PK`.
