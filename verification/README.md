# install_core

The decisions of an operating system installer, proved with Verus: what the
hardware at hand calls for, and what setting the time zone, the locales and the
keyboard of the system to be installed comes to.

- `src/` decides. Each decision takes what the machine said (the output of
  `lspci`, `lscpu` or `systemd-detect-virt`, DMI entries, a number of cores) and
  what the user chose, and gives package names or a plan: steps, each with what
  becomes of its failure.
  - `text`, `number`: searching and cutting text, hexadecimal and decimal numbers.
  - `outside`: the calls whose contracts are believed (`regex` and parts of `std`).
  - `plan`: actions, outcomes and plans.
  - `locale`, `keyboard`: the system to be installed; the running one's keyboard.
  - `pci`, `gpu`: display devices and what they call for.
  - `cpu`, `virt`: processor and virtual machine.
  - `laws`: what holds of all of this together.
- `app/` asks the machine and carries plans out, with the installer's own services
  behind the trait `Host`.
- `tests/` runs the library.
