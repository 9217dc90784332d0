# scenix

Verified core of the scenix scene, animation, input and asset runtime.

- `src/` is the library, checked by Verus: identifiers, editor layer masks and
  selection, loop-mode boundaries, keyframe bracketing, marker draining and the
  mixer's action slot table and tick events, binding keys and the blend write
  plan, skeleton retargeting, glTF clip import decisions, asset requests,
  diagnostics, dependency tracking and the format matrix, the summary
  exporters (JSON and GLB framing), editor picking tables and buffer sizing,
  skinning registries, keyboard/pointer transitions, touch slots, and the
  browser input code mappings.
- `app/` holds the floating-point and file-system edges around it: action
  clocks, keyframe sampling, analog gamepad state, gestures, canvas metrics,
  snapping, and on-disk dependency checks.
- `tests/` exercises the library on concrete values.
