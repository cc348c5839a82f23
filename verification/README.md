# miden_zed

Verified launch planning for the Miden extension of the Zed editor.

- `src/` is the library, with machine-checked proofs: decimal text of numbers
  (`decimal`), dotted-quad IPv4 addresses (`ipv4`), splitting and comparing
  text (`text`), the stdio proxy's command line (`proxy`), reading the debug
  configuration JSON and writing the scenario JSON through `serde_json`
  (`json`, `config`), the debug
  adapter plans (`dap`) and the language-server command (`extension`).
- `app/` is the Zed extension: it asks Zed's host and the worktree what they
  know, calls the library, and converts its plans into Zed's types.
- `tests/` run the library on concrete inputs.

For a standalone launch (`runtime: "debugger"`) the library passes
`programPath`, `programArgs` (after `--`) and `linkLibraries` (each after
`--link-library`) to `miden-debug`. The other debugger options
(`inputsPath`, `entrypoint`, `sysroot`, `searchPath`, `sourcePathPrefixes`,
`trimPathPrefixes`, `compilerArgs` and its aliases) are not read and not
passed on.
