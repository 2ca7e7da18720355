# vox

The verified core of `vox`, the Vo package for compiling, running and
inspecting Vo programs from Vo code.

## Layout

- `src/` — the library, verified with Verus.
  - `text` — decimal rendering and the string helpers the formatters use.
  - `bytecode`, `format` — the bytecode model and its text form
    (`format_text`, `format_instruction`, ...), each function proved equal
    to a spec function that defines the text; `text_layout` proves that
    each instruction line begins with its mnemonic and holds no line break,
    and how a module's text is laid out. `reader` takes the text form apart
    again; `parse_text` returns a module only when it formats back to
    exactly the text read, and it is proved to read back the text of every
    module in the class `plain_module` (no code, no string constants, names
    free of line breaks, method names free of `=`); `section_lines` proves
    that a section's title line is in a module's text exactly when its
    table has entries.
  - `ast`, `printer` — the syntax-tree model and `AstPrinter`, whose output
    is proved equal to `file_text`; `printed_lines` proves that a printed
    statement is whole lines at its indentation.
  - `handles` — the slot tables behind script-visible handles, with laws on
    store, lookup and free.
  - `wire` — the tagged argument and result encoding of the standalone
    exports, with round-trip laws.
  - `standalone` — what each standalone export answers.
  - `gui` — GUI sessions: the IDE's guest handle, the push receiver, the
    guest thread's decisions, timers and the guest tables. Senders keep a
    log of what was handed to their channel, and the IDE's reply channel a
    log of what each wait gave, so contracts state which event went to a
    guest, which timer was told to stop, and that a caller gets back what
    its own reply held.
  - `ffi` — what each native script operation answers.
- `tests/` — tests of the library on concrete values.
- `app/` — the C-ABI exports of the standalone build and the threads of a
  native GUI session, written around the library.
