/* Sets the interpreter's current exception, so that hosts need not know the layout
 * of `mrb_state`. Compile it with the headers of the mruby that is linked. */

#include <mruby.h>
#include <mruby/value.h>

void mrb_sys_set_exception(struct mrb_state *mrb, mrb_value exception) {
  mrb->exc = mrb_obj_ptr(exception);
}
