# imix

The board description of imix, a SAM4L platform, with its properties proved.

The library (`src/`) holds what the board decides:

- `pins`: what each GPIO pin is set to;
- `boot`: the actions that bring the board up, in order, and who is made whose client;
- `platform`: which driver answers which system call number;
- `parts`: the peripherals, components, event sources and memory areas that these speak of;
- `board`: what each action does to the board, when an action may be performed, and what the board
  is once the kernel's main loop runs;
- `laws`: what holds of the board as a whole: the boot sequence is admitted from reset to the main
  loop and leaves the board complete; nothing is used before it is built; parts, pins and memory
  have one owner each; a part reports to the component that is built on it; the message that the
  initialization is complete is true when it is sent; the kernel gets the drivers that were
  published, the chip and the processes that were loaded;
- `schedule`: the positions in the boot sequence that the proofs of `laws` go by.

The firmware image (`app/`) performs the planned actions on the chip and serves the kernel. Two
things are linked into the image from elsewhere: the switches of the submodules' power rails
(`imix_switch_rails`) and the panic handler. The plan of 139 actions lies in static memory.
