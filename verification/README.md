# npc_workbench

A workflow engine for on-chain and off-chain agents. Adapters (conditions,
listeners, evaluations, FHE gates, connectors, agents) are registered in a
*nibble*, stored on chain with their descriptions on IPFS, and wired into
workflows of nodes and links that run step by step.

The decisions of the engine are written in Verus and proved against their
contracts (`src/`): the run order of a workflow, what each step asks for and
what it records, how a condition is checked, how adapters are read back from
their stored descriptions, what a storage batch sends, and the reading and
writing of the engine's JSON. Calls into outside crates that only compute
(hex, base64, SHA-256, ECIES, chrono, regex, ethers' parsers) stand behind
small trusted wrappers whose contracts say what the library relies on.

`app/` holds the I/O around the library: HTTP, IPFS, the subgraph, chain
transactions (creating a nibble, storing and removing adapters and
workflows), and the loop that runs a workflow as the library plans it,
handing the outside work of each step to a `StepPerformer` that the caller
supplies.
`tests/` exercises the library on concrete values.
