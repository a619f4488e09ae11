# breathing_led

Four LEDs on an STM32F103 board "breathe": each walks up and down a
128-entry brightness curve, one step per pass of the main loop, and its
PWM duty follows the curve. Four buttons turn every LED around, lengthen or
shorten each step (one to three timer periods), and switch between
breathing and a steady output.

- `src/` is the verified library: the curve (`table`), one LED's state and
  step (`led`), and the whole board with its button and step transitions
  (`controller`), together with the proved laws about them (bounds, the
  254-step breathing period, what a second press undoes, the LEDs keeping
  their spacing).
- `app/main.rs` is the firmware: it sets up the pins, PWM timer, system
  timer and serial port with `stm32f1xx-hal`, forwards button interrupts
  to `Controller::press`, and carries out the steps that
  `Controller::step_led` returns.
- `tests/` runs the library on concrete values.
